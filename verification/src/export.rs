//! Buffers handed to C callers, the result records that carry them, and the
//! bookkeeping needed to take them back.
use crate::engine::RenderedBitmap;
use crate::errors::RatexError;
use vstd::prelude::*;

verus! {

/// Premultiplied RGBA8 bitmap: `stride * height` bytes, `stride` bytes per row.
#[derive(Debug)]
pub struct RatexBitmap {
    pub data: Vec<u8>,
    pub width: u32,
    pub height: u32,
    pub stride: u32,
}

/// Binary buffer (PNG bytes); `len` is the length announced to the caller.
#[derive(Debug)]
pub struct RatexBytes {
    pub data: Vec<u8>,
    pub len: u32,
}

/// Result of a bitmap request: `error_code` is `0` on success, `1` on error.
#[derive(Debug)]
pub struct RatexBitmapResult {
    pub bitmap: RatexBitmap,
    pub error_code: i32,
}

/// Result of a PNG request: `error_code` is `0` on success, `1` on error.
#[derive(Debug)]
pub struct RatexBytesResult {
    pub bytes: RatexBytes,
    pub error_code: i32,
}

/// Result of a text request (display list JSON, SVG): `data` is `None` (NULL) on error.
#[derive(Debug)]
pub struct RatexResult {
    pub data: Option<String>,
    pub error_code: i32,
}

impl RatexBitmap {
    /// The bitmap that stands for "no bitmap": no data, zero sizes.
    pub fn empty() -> (bitmap: RatexBitmap)
        ensures
            bitmap.data@.len() == 0,
            bitmap.width == 0,
            bitmap.height == 0,
            bitmap.stride == 0,
    {
        RatexBitmap { data: Vec::new(), width: 0, height: 0, stride: 0 }
    }
}

impl RatexBytes {
    /// The buffer that stands for "no buffer": no data, zero length.
    pub fn empty() -> (bytes: RatexBytes)
        ensures
            bytes.data@.len() == 0,
            bytes.len == 0,
    {
        RatexBytes { data: Vec::new(), len: 0 }
    }
}

/// Hands a byte buffer over as a [`RatexBytes`]; the announced length is the buffer's
/// length truncated to 32 bits, as the C field holds.
pub fn bytes_into_raw(data: Vec<u8>) -> (bytes: RatexBytes)
    ensures
        bytes.data@ == data@,
        bytes.len == data@.len() as u32,
{
    let len = data.len() as u32;
    RatexBytes { data, len }
}

/// Hands a rendered bitmap over as a [`RatexBitmap`], sizes unchanged.
pub fn bitmap_into_raw(rendered: RenderedBitmap) -> (bitmap: RatexBitmap)
    ensures
        bitmap.data@ == rendered.data@,
        bitmap.width == rendered.width,
        bitmap.height == rendered.height,
        bitmap.stride == rendered.stride,
{
    let RenderedBitmap { data, width, height, stride } = rendered;
    RatexBitmap { data, width, height, stride }
}

/// Turns the outcome of a bitmap request into its result record and the error, if any.
pub fn bitmap_result(outcome: Result<RatexBitmap, RatexError>) -> (res: (
    RatexBitmapResult,
    Option<RatexError>,
))
    ensures
        (res.0.error_code == 0) == (outcome is Ok),
        outcome matches Ok(b) ==> res.0.bitmap == b && res.1 is None,
        outcome matches Err(e) ==> {
            &&& res.0.error_code == 1
            &&& res.0.bitmap.data@.len() == 0
            &&& res.0.bitmap.width == 0 && res.0.bitmap.height == 0 && res.0.bitmap.stride == 0
            &&& res.1 == Some(e)
        },
{
    match outcome {
        Ok(bitmap) => (RatexBitmapResult { bitmap, error_code: 0 }, None),
        Err(e) => (RatexBitmapResult { bitmap: RatexBitmap::empty(), error_code: 1 }, Some(e)),
    }
}

/// Turns the outcome of a PNG request into its result record and the error, if any.
pub fn bytes_result(outcome: Result<RatexBytes, RatexError>) -> (res: (
    RatexBytesResult,
    Option<RatexError>,
))
    ensures
        (res.0.error_code == 0) == (outcome is Ok),
        outcome matches Ok(b) ==> res.0.bytes == b && res.1 is None,
        outcome matches Err(e) ==> {
            &&& res.0.error_code == 1
            &&& res.0.bytes.data@.len() == 0
            &&& res.0.bytes.len == 0
            &&& res.1 == Some(e)
        },
{
    match outcome {
        Ok(bytes) => (RatexBytesResult { bytes, error_code: 0 }, None),
        Err(e) => (RatexBytesResult { bytes: RatexBytes::empty(), error_code: 1 }, Some(e)),
    }
}

/// Turns the outcome of a text request into its result record and the error, if any.
pub fn text_result(outcome: Result<String, RatexError>) -> (res: (RatexResult, Option<RatexError>))
    ensures
        (res.0.error_code == 0) == (outcome is Ok),
        outcome matches Ok(t) ==> res.0.data == Some(t) && res.1 is None,
        outcome matches Err(e) ==> res.0.error_code == 1 && res.0.data is None && res.1 == Some(e),
{
    match outcome {
        Ok(text) => (RatexResult { data: Some(text), error_code: 0 }, None),
        Err(e) => (RatexResult { data: None, error_code: 1 }, Some(e)),
    }
}

/// How many bytes to reclaim when a bitmap is freed: nothing for a NULL buffer or a
/// zero stride or height, otherwise `stride * height`, saturated to `usize::MAX`.
pub fn bitmap_release_len(data_is_null: bool, stride: u32, height: u32) -> (len: Option<usize>)
    ensures
        len == if data_is_null || stride == 0 || height == 0 {
            None
        } else if stride * height > usize::MAX {
            Some(usize::MAX)
        } else {
            Some((stride * height) as usize)
        },
{
    if data_is_null || stride == 0 || height == 0 {
        return None;
    }
    match (stride as usize).checked_mul(height as usize) {
        Some(n) => Some(n),
        None => Some(usize::MAX),
    }
}

/// How many bytes to reclaim when a PNG buffer is freed: nothing for a NULL buffer or
/// a zero length, otherwise the announced length.
pub fn bytes_release_len(data_is_null: bool, len: u32) -> (n: Option<usize>)
    ensures
        n == if data_is_null || len == 0 {
            None
        } else {
            Some(len as usize)
        },
{
    if data_is_null || len == 0 {
        None
    } else {
        Some(len as usize)
    }
}

} // verus!
