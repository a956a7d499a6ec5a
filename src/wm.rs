use vstd::prelude::*;
use vstd::string::StrSliceExecFns;
use vstd::utf8::*;
use crate::text::{bytes_view, decode_native_text, native_text, native_text_of_encoded, native_text_valid};

verus! {

/// How the window manager treats keyboard and mouse input: asked about,
/// released, or grabbed by the window.
#[derive(PartialEq, Eq, Structural, Copy, Clone, Debug)]
pub enum GrabMode {
    Query,
    Off,
    On,
}

/// Native code asking for the current grab mode.
pub const GRAB_QUERY: libc::c_int = -1;

/// Native code of a released input.
pub const GRAB_OFF: libc::c_int = 0;

/// Native code of a grabbed input.
pub const GRAB_ON: libc::c_int = 1;

/// Native code of a grab that only holds in fullscreen mode; reported by the
/// native layer but never requested through `GrabMode`.
pub const GRAB_FULLSCREEN: libc::c_int = 2;

impl GrabMode {
    /// The native code of each mode.
    pub open spec fn spec_code(self) -> int {
        match self {
            GrabMode::Query => -1,
            GrabMode::Off => 0,
            GrabMode::On => 1,
        }
    }

    /// The native code to hand to the window manager for this mode.
    pub fn code(self) -> (c: libc::c_int)
        ensures
            c == self.spec_code(),
    {
        match self {
            GrabMode::Query => GRAB_QUERY,
            GrabMode::Off => GRAB_OFF,
            GrabMode::On => GRAB_ON,
        }
    }
}

/// The bytes of a caption as the window manager takes them: the text in
/// UTF-8, closed by a zero byte.
pub open spec fn caption_buffer(text: Seq<char>) -> Seq<u8> {
    encode_utf8(text).push(0u8)
}

/// Whether a text can be handed to the window manager as a caption: a zero
/// byte inside it would cut it short.
pub open spec fn caption_ok(text: Seq<char>) -> bool {
    !text.contains('\0')
}

/// Whether `text` can be handed to the window manager as a caption.
pub fn caption_ok_text(text: &str) -> (r: bool)
    ensures
        r == caption_ok(text@),
{
    let n = text.unicode_len();
    let mut i: usize = 0;
    while i < n
        invariant
            n == text@.len(),
            i <= n,
            forall|j: int| 0 <= j < i ==> text@[j] != '\0',
        decreases n - i,
    {
        if text.get_char(i) == '\0' {
            return false;
        }
        i = i + 1;
    }
    true
}

/// Copies the bytes of `text` into a buffer closed by a zero byte.
fn caption_bytes(text: &str) -> (r: Vec<u8>)
    ensures
        r@ == caption_buffer(text@),
{
    let b = text.as_bytes();
    let mut v: Vec<u8> = Vec::new();
    let mut i: usize = 0;
    while i < b.len()
        invariant
            b@ == encode_utf8(text@),
            i <= b@.len(),
            v@ == b@.subrange(0, i as int),
        decreases b@.len() - i,
    {
        v.push(b[i]);
        i = i + 1;
    }
    assert(v@ == b@);
    v.push(0u8);
    v
}

/// The title and icon buffers to hand to the window manager for a caption.
pub fn set_caption(title: &str, icon: &str) -> (r: (Vec<u8>, Vec<u8>))
    requires
        caption_ok(title@),
        caption_ok(icon@),
    ensures
        r.0@ == caption_buffer(title@),
        r.1@ == caption_buffer(icon@),
{
    (caption_bytes(title), caption_bytes(icon))
}

/// The caption as text, from the strings the window manager reports for the
/// title and the icon; a missing string reads as empty text.
pub fn get_caption(title: Option<Vec<u8>>, icon: Option<Vec<u8>>) -> (r: (String, String))
    requires
        native_text_valid(bytes_view(&title)),
        native_text_valid(bytes_view(&icon)),
    ensures
        r.0@ == native_text(bytes_view(&title)),
        r.1@ == native_text(bytes_view(&icon)),
{
    (decode_native_text(title), decode_native_text(icon))
}

/// The mode that toggling asks for, given the mode the window manager
/// reports: released when the input is grabbed, grabbed in every other case.
pub open spec fn toggle_target(current: int) -> GrabMode {
    if current == 1 {
        GrabMode::Off
    } else {
        GrabMode::On
    }
}

/// The mode to request when toggling the grab, given the code of the current
/// mode as the window manager reports it.
pub fn toggle_grab_input(current: libc::c_int) -> (next: GrabMode)
    ensures
        next == toggle_target(current as int),
{
    if current == GrabMode::On.code() {
        GrabMode::Off
    } else {
        GrabMode::On
    }
}

/// Whether the input is grabbed, given the code of the current mode as the
/// window manager reports it.
pub fn is_grabbing_input(current: libc::c_int) -> (r: bool)
    ensures
        r == (current == GRAB_ON),
{
    current == GrabMode::On.code()
}

/// Toggling always changes a grabbed or released input, and toggling twice in
/// a row gives back the mode one started from, where the window manager
/// reports the mode last requested.
pub proof fn toggle_twice_restores(current: int)
    requires
        current == GRAB_OFF || current == GRAB_ON,
    ensures
        toggle_target(current).spec_code() != current,
        toggle_target(toggle_target(current).spec_code()).spec_code() == current,
        current == GRAB_ON ==> toggle_target(current) == GrabMode::Off,
        current == GRAB_OFF ==> toggle_target(current) == GrabMode::On,
{
}

/// Reading the caption back gives the title and icon that were set, where the
/// window manager hands back each buffer up to its closing zero byte; where
/// it hands back no strings, the caption reads as two empty texts.
pub proof fn caption_round_trip(title: Seq<char>, icon: Seq<char>)
    ensures
        native_text_valid(Some(caption_buffer(title).drop_last())),
        native_text_valid(Some(caption_buffer(icon).drop_last())),
        native_text(Some(caption_buffer(title).drop_last())) == title,
        native_text(Some(caption_buffer(icon).drop_last())) == icon,
        native_text(None) == Seq::<char>::empty(),
{
    assert(caption_buffer(title).drop_last() == encode_utf8(title));
    assert(caption_buffer(icon).drop_last() == encode_utf8(icon));
    native_text_of_encoded(title);
    native_text_of_encoded(icon);
}

} // verus!
