// Joystick and window-manager logic of the native multimedia bindings: what
// is decided around each native call, verified.
pub mod joy;
pub mod text;
pub mod wm;
