use vstd::prelude::*;
use vstd::utf8::*;
use crate::text::{bytes_view, decode_native_text, native_text_valid};

verus! {

/// An open joystick: the address of the device handle that the native layer
/// gave when it was opened. The value owns that handle; it is neither copied
/// nor cloned, so the handle is closed once, when its owner is done with it.
#[derive(PartialEq, Eq, Structural, Debug)]
pub struct Joystick {
    pub raw: usize,
}

impl Joystick {
    /// A joystick holds a handle that the native layer actually gave: a
    /// null address stands for a failed open and never makes a joystick.
    pub open spec fn wf(&self) -> bool {
        self.raw != 0
    }

    /// The outcome of opening a joystick, given the handle address the
    /// native open call returned and the native layer's last error message:
    /// the error where the address is null, else a joystick that owns it.
    pub fn open(raw: usize, error: String) -> (r: Result<Joystick, String>)
        ensures
            raw == 0 <==> r is Err,
            r matches Err(e) ==> e@ == error@,
            r matches Ok(j) ==> j.raw == raw && j.wf(),
    {
        if raw == 0 {
            Err(error)
        } else {
            Ok(wrap_joystick(raw))
        }
    }
}

/// Makes a joystick of a handle address that the native layer gave.
pub fn wrap_joystick(raw: usize) -> (j: Joystick)
    requires
        raw != 0,
    ensures
        j.raw == raw,
        j.wf(),
{
    Joystick { raw: raw }
}

/// The name of a joystick, given the string the native layer reported for it
/// and the native layer's last error message: the error where there is no
/// string, else the text it holds.
pub fn get_joystick_name(name: Option<Vec<u8>>, error: String) -> (r: Result<String, String>)
    requires
        native_text_valid(bytes_view(&name)),
    ensures
        name is None <==> r is Err,
        r matches Err(e) ==> e@ == error@,
        r matches Ok(s) ==> s@ == decode_utf8(name->Some_0@),
{
    match name {
        None => Err(error),
        Some(b) => Ok(decode_native_text(Some(b))),
    }
}

/// Whether a joystick is open, given the status the native layer reported
/// for its index: open exactly when that status is one.
pub fn is_joystick_open(status: libc::c_int) -> (r: bool)
    ensures
        r == (status == 1),
{
    status == 1
}

} // verus!
