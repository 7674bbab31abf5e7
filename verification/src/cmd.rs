use vstd::prelude::*;

verus! {

/// The number of bytes that an AT command adds around its serialized
/// arguments: its prefix, its name and its termination, one byte for the
/// separator between name and values where there is one, and two for the
/// quotes around escaped strings where strings are quoted.
pub open spec fn spec_command_len(
    cmd_prefix: Seq<u8>,
    cmd: Seq<u8>,
    termination: Seq<u8>,
    value_sep: bool,
    quote_escape_strings: bool,
) -> int {
    cmd_prefix.len() + cmd.len() + termination.len() + (if value_sep { 1int } else { 0int }) + (
    if quote_escape_strings {
        2int
    } else {
        0int
    })
}

/// Computes [`spec_command_len`] on the bytes of the command's prefix, name
/// and termination.
pub fn command_len(
    cmd_prefix: &[u8],
    cmd: &[u8],
    termination: &[u8],
    value_sep: bool,
    quote_escape_strings: bool,
) -> (n: usize)
    requires
        spec_command_len(cmd_prefix@, cmd@, termination@, value_sep, quote_escape_strings)
            <= usize::MAX,
    ensures
        n == spec_command_len(cmd_prefix@, cmd@, termination@, value_sep, quote_escape_strings),
        n == cmd_prefix@.len() + cmd@.len() + termination@.len() + (if value_sep { 1int } else { 0int })
            + (if quote_escape_strings { 2int } else { 0int }),
{
    let mut n: usize = cmd_prefix.len() + cmd.len() + termination.len();
    if value_sep {
        n += 1;
    }
    if quote_escape_strings {
        n += 2;
    }
    n
}

/// Each byte of the prefix, of the command's name and of the termination
/// counts once: one more byte in any of them gives a length one greater.
pub proof fn lemma_command_len_counts_every_byte(
    p: Seq<u8>,
    c: Seq<u8>,
    t: Seq<u8>,
    s: bool,
    q: bool,
    b: u8,
)
    ensures
        spec_command_len(p.push(b), c, t, s, q) == spec_command_len(p, c, t, s, q) + 1,
        spec_command_len(p, c.push(b), t, s, q) == spec_command_len(p, c, t, s, q) + 1,
        spec_command_len(p, c, t.push(b), s, q) == spec_command_len(p, c, t, s, q) + 1,
{
}

/// A command with no prefix, name, termination, separator or quotes has no
/// fixed bytes; a separator adds one byte and quoting adds two.
pub proof fn lemma_command_len_flags(p: Seq<u8>, c: Seq<u8>, t: Seq<u8>, s: bool, q: bool)
    ensures
        spec_command_len(Seq::empty(), Seq::empty(), Seq::empty(), false, false) == 0,
        spec_command_len(p, c, t, true, q) == spec_command_len(p, c, t, false, q) + 1,
        spec_command_len(p, c, t, s, true) == spec_command_len(p, c, t, s, false) + 2,
{
}

/// The fixed part is the sum of its pieces: the length of the command's name
/// adds to that of a command with an empty name, and so do the prefix and the
/// termination.
pub proof fn lemma_command_len_is_additive(p: Seq<u8>, c: Seq<u8>, t: Seq<u8>, s: bool, q: bool)
    ensures
        spec_command_len(p, c, t, s, q) == spec_command_len(p, Seq::empty(), t, s, q) + c.len(),
        spec_command_len(p, c, t, s, q) == spec_command_len(Seq::empty(), c, t, s, q) + p.len(),
        spec_command_len(p, c, t, s, q) == spec_command_len(p, c, Seq::empty(), s, q) + t.len(),
        spec_command_len(p, c, t, s, q) >= p.len() + c.len() + t.len(),
{
}

} // verus!
