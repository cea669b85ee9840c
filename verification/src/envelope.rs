//! The response envelope: the sole shape ever sent to a caller. Status is
//! `"success"` or `"error"`; the message and the data slot are optional.
//! The data slot carries the body's JSON text, already serialized by the
//! caller; attaching it to the transport is the surrounding program's
//! concern.

use vstd::prelude::*;

verus! {

/// The mathematical shape of an envelope: each slot as a character
/// sequence, or absent.
pub ghost struct ResView {
    pub status: Option<Seq<char>>,
    pub message: Option<Seq<char>>,
    pub data: Option<Seq<char>>,
}

/// A response envelope under construction or ready to send.
#[derive(Clone, Debug)]
pub struct Res {
    pub status: Option<String>,
    pub message: Option<String>,
    pub data: Option<String>,
}

impl View for Res {
    type V = ResView;

    open spec fn view(&self) -> ResView {
        ResView {
            status: self.status.deep_view(),
            message: self.message.deep_view(),
            data: self.data.deep_view(),
        }
    }
}

/// The envelope of every successful operation: status `"success"`, no
/// message, and whatever body the operation rendered.
pub open spec fn success_view(data: Option<Seq<char>>) -> ResView {
    ResView { status: Some("success"@), message: None, data }
}

/// The envelope of every failed operation: status `"error"`, a short
/// category as the message, and an optional body.
pub open spec fn error_view(message: Seq<char>, data: Option<Seq<char>>) -> ResView {
    ResView { status: Some("error"@), message: Some(message), data }
}

impl Res {
    /// An empty envelope, every slot absent.
    pub fn new() -> (r: Res)
        ensures
            r@ == (ResView { status: None, message: None, data: None }),
    {
        Res { status: None, message: None, data: None }
    }

    /// Sets the status slot, leaving the others as they were.
    pub fn status(self, status: String) -> (r: Res)
        ensures
            r@ == (ResView { status: Some(status@), ..self@ }),
    {
        Res { status: Some(status), ..self }
    }

    /// Sets the message slot, leaving the others as they were.
    pub fn message(self, message: String) -> (r: Res)
        ensures
            r@ == (ResView { message: Some(message@), ..self@ }),
    {
        Res { message: Some(message), ..self }
    }

    /// Sets the data slot, leaving the others as they were.
    pub fn data(self, data: String) -> (r: Res)
        ensures
            r@ == (ResView { data: Some(data@), ..self@ }),
    {
        Res { data: Some(data), ..self }
    }

    /// The envelope of a success with no body.
    pub fn success() -> (r: Res)
        ensures
            r@ == success_view(None),
    {
        Res::new().status("success".to_owned())
    }

    /// The envelope of a success whose body is `data`.
    pub fn success_data(data: String) -> (r: Res)
        ensures
            r@ == success_view(Some(data@)),
    {
        Res::new().status("success".to_owned()).data(data)
    }

    /// The envelope of a failure described by `message`, with no body.
    pub fn error(message: String) -> (r: Res)
        ensures
            r@ == error_view(message@, None),
    {
        Res::new().status("error".to_owned()).message(message)
    }
}

} // verus!
