//! The text lines that a tag writes to its serial port.
use vstd::prelude::*;
use vstd::string::*;

verus! {

/// The capacity, in bytes, of one line written to the serial port.
pub const LINE_CAPACITY: usize = 64;

/// The byte that ends each line.
pub const NEWLINE: u8 = 10;

#[verifier::external_type_specification]
#[verifier::external_body]
pub struct ExLine<const N: usize>(heapless::String<N>);

/// The bytes that a fixed-capacity `heapless::String<64>` holds, in order.
pub uninterp spec fn line_bytes(s: heapless::String<64>) -> Seq<u8>;

/// Calls `heapless::String::<64>::new`, which makes a string that holds no bytes.
#[verifier::external_body]
fn line_new() -> (s: heapless::String<64>)
    ensures
        line_bytes(s) == Seq::<u8>::empty(),
{
    heapless::String::new()
}

/// Calls `heapless::String::<64>::push_str`. The crate appends the UTF-8 bytes of
/// `text` when they fit in what is left of the 64 bytes and returns `Ok`; otherwise
/// it leaves the string as it was and returns `Err`.
#[verifier::external_body]
fn line_push_str(s: &mut heapless::String<64>, text: &str) -> (r: Result<(), ()>)
    ensures
        line_bytes(*old(s)).len() + text.spec_bytes().len() <= 64 ==> {
            &&& r is Ok
            &&& line_bytes(*final(s)) == line_bytes(*old(s)) + text.spec_bytes()
        },
        line_bytes(*old(s)).len() + text.spec_bytes().len() > 64 ==> {
            &&& r is Err
            &&& line_bytes(*final(s)) == line_bytes(*old(s))
        },
{
    s.push_str(text)
}

/// Calls `heapless::String::<64>::as_str`, which views the bytes the string holds, in
/// order, as a `str`.
#[verifier::external_body]
fn line_as_str(s: &heapless::String<64>) -> (t: &str)
    ensures
        t.spec_bytes() == line_bytes(*s),
{
    s.as_str()
}

/// The bytes of a serial-port line, as they go out.
pub fn uart_line_bytes(line: &heapless::String<64>) -> (b: &[u8])
    ensures
        b@ == line_bytes(*line),
{
    line_as_str(line).as_bytes()
}

/// The line that the serial port gets for `msg`: its UTF-8 bytes and a newline.
pub fn uart_line(msg: &str) -> (line: heapless::String<64>)
    requires
        msg.spec_bytes().len() + 1 <= LINE_CAPACITY,
    ensures
        line_bytes(line) == msg.spec_bytes().push(NEWLINE),
{
    let mut line = line_new();
    let first = line_push_str(&mut line, msg);
    proof {
        reveal_strlit("\n");
        is_ascii_spec_bytes("\n");
        assert("\n".spec_bytes() == seq![NEWLINE]);
    }
    let second = line_push_str(&mut line, "\n");
    line
}

} // verus!
