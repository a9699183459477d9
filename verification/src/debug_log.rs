use vstd::prelude::*;
use crate::wide::{encode_utf16, lemma_encode_utf16_concat, push_wide};

verus! {

/// The text that starts every debug message.
pub const LOG_PREFIX: &'static str = "VipsThumb: ";

/// The characters of the debug message for `msg`: the prefix, the message
/// and a terminating NUL.
pub open spec fn log_text(msg: Seq<char>) -> Seq<char> {
    LOG_PREFIX@ + msg + seq!['\0']
}

/// The debug message for `msg` as the UTF-16 units that
/// `OutputDebugStringW` takes.
pub fn debug_message(msg: &str) -> (units: Vec<u16>)
    ensures
        units@ == encode_utf16(log_text(msg@)),
        units@ == encode_utf16("VipsThumb: "@) + encode_utf16(msg@) + seq![0u16],
{
    let mut units = Vec::new();
    push_wide(&mut units, LOG_PREFIX);
    push_wide(&mut units, msg);
    units.push(0u16);
    proof {
        lemma_encode_utf16_concat(LOG_PREFIX@, msg@);
        lemma_encode_utf16_concat(LOG_PREFIX@ + msg@, seq!['\0']);
        assert(seq!['\0'].drop_last() =~= Seq::<char>::empty());
        assert(encode_utf16(Seq::<char>::empty()) == Seq::<u16>::empty());
        assert(('\0' as u32) == 0);
        assert(encode_utf16(seq!['\0']) =~= seq![0u16]);
    }
    units
}

} // verus!
