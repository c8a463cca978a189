use vstd::prelude::*;
use vstd::string::StringSliceAdditionalSpecFns;

verus! {

/// The whitespace bytes that separate the words of a control message: space,
/// tab, line feed, form feed and carriage return.
pub open spec fn is_ascii_ws(b: u8) -> bool {
    b == 0x20 || b == 0x09 || b == 0x0a || b == 0x0c || b == 0x0d
}

/// The first index at or after `i` that is the end of `s` or holds a byte
/// other than whitespace.
pub open spec fn skip_ws(s: Seq<u8>, i: int) -> int
    decreases s.len() - i,
{
    if i >= s.len() || !is_ascii_ws(s[i]) {
        i
    } else {
        skip_ws(s, i + 1)
    }
}

/// The first index at or after `i` that is the end of `s` or holds whitespace.
pub open spec fn skip_word(s: Seq<u8>, i: int) -> int
    decreases s.len() - i,
{
    if i >= s.len() || is_ascii_ws(s[i]) {
        i
    } else {
        skip_word(s, i + 1)
    }
}

/// The first two words of `s`, where a word is a maximal run of bytes that are
/// not whitespace; `None` where `s` has fewer than two words.
pub open spec fn first_two_words(s: Seq<u8>) -> Option<(Seq<u8>, Seq<u8>)> {
    let a0 = skip_ws(s, 0);
    let b0 = skip_word(s, a0);
    let a1 = skip_ws(s, b0);
    let b1 = skip_word(s, a1);
    if a1 >= s.len() {
        None
    } else {
        Some((s.subrange(a0, b0), s.subrange(a1, b1)))
    }
}

/// The path prefix of a voice level message, `/voicelevel`.
pub open spec fn voice_level_path() -> Seq<u8> {
    seq![0x2fu8, 0x76, 0x6f, 0x69, 0x63, 0x65, 0x6c, 0x65, 0x76, 0x65, 0x6c]
}

/// The number text of a voice level message `<path> <number>;`: the path
/// starts with `/voicelevel` and the second word ends in `;`, which is not part
/// of the number. Words after the second are ignored.
pub open spec fn voice_level_text(s: Seq<u8>) -> Option<Seq<u8>> {
    match first_two_words(s) {
        None => None,
        Some(words) => {
            let (path, number) = words;
            if number.len() >= 1 && number.last() == 0x3bu8 && path.len() >= voice_level_path().len()
                && path.take(voice_level_path().len() as int) == voice_level_path() {
                Some(number.drop_last())
            } else {
                None
            }
        },
    }
}

/// A recognized control message, its number still in textual form.
#[derive(Debug, Clone, PartialEq, Eq)]
pub enum PdCommand {
    VoiceLevel(Vec<u8>),
}

impl PdCommand {
    /// The text of the number the message carries.
    pub open spec fn number_text(&self) -> Seq<u8> {
        match self {
            PdCommand::VoiceLevel(t) => t@,
        }
    }
}

fn skip_ascii_ws(s: &[u8], i: usize) -> (r: usize)
    requires
        i <= s@.len(),
    ensures
        r == skip_ws(s@, i as int),
        i <= r <= s@.len(),
        r < s@.len() ==> !is_ascii_ws(s@[r as int]),
{
    let mut j = i;
    while j < s.len() && (s[j] == 0x20 || s[j] == 0x09 || s[j] == 0x0a || s[j] == 0x0c || s[j] == 0x0d)
        invariant
            i <= j <= s@.len(),
            skip_ws(s@, j as int) == skip_ws(s@, i as int),
        decreases s@.len() - j,
    {
        j = j + 1;
    }
    j
}

fn skip_non_ws(s: &[u8], i: usize) -> (r: usize)
    requires
        i <= s@.len(),
    ensures
        r == skip_word(s@, i as int),
        i <= r <= s@.len(),
        i < s@.len() && !is_ascii_ws(s@[i as int]) ==> i < r,
{
    let mut j = i;
    while j < s.len() && !(s[j] == 0x20 || s[j] == 0x09 || s[j] == 0x0a || s[j] == 0x0c || s[j]
        == 0x0d)
        invariant
            i <= j <= s@.len(),
            skip_word(s@, j as int) == skip_word(s@, i as int),
        decreases s@.len() - j,
    {
        j = j + 1;
    }
    j
}

fn starts_with_voice_level_path(s: &[u8], from: usize, to: usize) -> (r: bool)
    requires
        from <= to <= s@.len(),
    ensures
        r == (to - from >= voice_level_path().len() && s@.subrange(from as int, to as int).take(
            voice_level_path().len() as int,
        ) == voice_level_path()),
{
    if to - from < 11 {
        return false;
    }
    let r = s[from] == 0x2f && s[from + 1] == 0x76 && s[from + 2] == 0x6f && s[from + 3] == 0x69
        && s[from + 4] == 0x63 && s[from + 5] == 0x65 && s[from + 6] == 0x6c && s[from + 7] == 0x65
        && s[from + 8] == 0x76 && s[from + 9] == 0x65 && s[from + 10] == 0x6c;
    let ghost taken = s@.subrange(from as int, to as int).take(11);
    assert(r ==> taken =~= voice_level_path());
    assert(taken == voice_level_path() ==> r) by {
        if taken == voice_level_path() {
            assert(taken[0] == voice_level_path()[0]);
            assert(taken[1] == voice_level_path()[1]);
            assert(taken[2] == voice_level_path()[2]);
            assert(taken[3] == voice_level_path()[3]);
            assert(taken[4] == voice_level_path()[4]);
            assert(taken[5] == voice_level_path()[5]);
            assert(taken[6] == voice_level_path()[6]);
            assert(taken[7] == voice_level_path()[7]);
            assert(taken[8] == voice_level_path()[8]);
            assert(taken[9] == voice_level_path()[9]);
            assert(taken[10] == voice_level_path()[10]);
        }
    }
    r
}

/// Parses a control message of the form `<path> <number>;`. Only a path
/// starting with `/voicelevel` is recognized; anything else, and any message
/// with fewer than two words or without the `;` after the number, gives
/// `None`.
pub fn parse_packet(packet: &str) -> (r: Option<PdCommand>)
    ensures
        (r is None) <==> (voice_level_text(packet.spec_bytes()) is None),
        (r is Some) ==> r->Some_0.number_text() == voice_level_text(packet.spec_bytes())->Some_0,
{
    let s = packet.as_bytes();
    let a0 = skip_ascii_ws(s, 0);
    let b0 = skip_non_ws(s, a0);
    let a1 = skip_ascii_ws(s, b0);
    let b1 = skip_non_ws(s, a1);
    if a1 >= s.len() {
        return None;
    }
    assert(a1 < b1);
    if s[b1 - 1] != 0x3b {
        return None;
    }
    if !starts_with_voice_level_path(s, a0, b0) {
        return None;
    }
    let mut number: Vec<u8> = Vec::with_capacity(b1 - 1 - a1);
    let mut k = a1;
    while k < b1 - 1
        invariant
            a1 <= k <= b1 - 1,
            b1 <= s@.len(),
            number@ =~= s@.subrange(a1 as int, k as int),
        decreases b1 - 1 - k,
    {
        number.push(s[k]);
        k = k + 1;
    }
    Some(PdCommand::VoiceLevel(number))
}

} // verus!
