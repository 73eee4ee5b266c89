//! The debug logger's view of an envelope.

use vstd::prelude::*;
use vstd::utf8::{decode_utf8, valid_utf8};
use crate::envelope::text_from_utf8;

verus! {

/// The longest payload that is shown in full.
pub const PREVIEW_LIMIT: usize = 64;

/// What the logger shows of a payload.
#[derive(Clone, Debug)]
pub enum Preview {
    /// A short payload that is well-formed UTF-8: its text.
    Text(String),
    /// A short payload that is not: its bytes.
    Bytes(Vec<u8>),
    /// A long payload: its length.
    Size(usize),
}

/// The mathematical value of a preview.
pub enum PreviewView {
    Text(Seq<char>),
    Bytes(Seq<u8>),
    Size(nat),
}

impl View for Preview {
    type V = PreviewView;

    open spec fn view(&self) -> PreviewView {
        match self {
            Preview::Text(s) => PreviewView::Text(s@),
            Preview::Bytes(b) => PreviewView::Bytes(b@),
            Preview::Size(n) => PreviewView::Size(*n as nat),
        }
    }
}

/// What the logger shows of a payload.
pub open spec fn preview_spec(data: Seq<u8>) -> PreviewView {
    if data.len() > PREVIEW_LIMIT {
        PreviewView::Size(data.len())
    } else if valid_utf8(data) {
        PreviewView::Text(decode_utf8(data))
    } else {
        PreviewView::Bytes(data)
    }
}

/// What the logger shows of a payload.
pub fn preview(data: &Vec<u8>) -> (shown: Preview)
    ensures
        shown@ == preview_spec(data@),
{
    if data.len() > PREVIEW_LIMIT {
        Preview::Size(data.len())
    } else {
        match text_from_utf8(data.clone()) {
            Some(text) => Preview::Text(text),
            None => Preview::Bytes(data.clone()),
        }
    }
}

} // verus!
