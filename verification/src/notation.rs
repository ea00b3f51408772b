//! The written form of pitch classes and registers, and of sequences of
//! pitch classes.
//!
//! A pitch class is written as its letter, followed by `S` if it is sharp.
//! A register is written as `C` and its digit. A sequence is written as
//! tokens with a colon between each two; a token that names no pitch class
//! is passed over.

use vstd::prelude::*;
use vstd::string::StrSliceExecFns;
use crate::pitch::{Register, Semitone};

verus! {

/// The character that parts the tokens of a sequence.
pub const SEPARATOR: char = ':';

/// The character that marks a pitch class as sharp.
pub const SHARP: char = 'S';

/// The pitch class that `name` stands for.
pub open spec fn semitone_of(name: Seq<char>) -> Option<Semitone> {
    if name == seq!['C'] {
        Some(Semitone::C)
    } else if name == seq!['C', 'S'] {
        Some(Semitone::CSharp)
    } else if name == seq!['D'] {
        Some(Semitone::D)
    } else if name == seq!['D', 'S'] {
        Some(Semitone::DSharp)
    } else if name == seq!['E'] {
        Some(Semitone::E)
    } else if name == seq!['F'] {
        Some(Semitone::F)
    } else if name == seq!['F', 'S'] {
        Some(Semitone::FSharp)
    } else if name == seq!['G'] {
        Some(Semitone::G)
    } else if name == seq!['G', 'S'] {
        Some(Semitone::GSharp)
    } else if name == seq!['A'] {
        Some(Semitone::A)
    } else if name == seq!['A', 'S'] {
        Some(Semitone::ASharp)
    } else if name == seq!['B'] {
        Some(Semitone::B)
    } else {
        None
    }
}

/// The register that `name` stands for.
pub open spec fn register_of(name: Seq<char>) -> Option<Register> {
    if name == seq!['C', '0'] {
        Some(Register::C0)
    } else if name == seq!['C', '1'] {
        Some(Register::C1)
    } else if name == seq!['C', '2'] {
        Some(Register::C2)
    } else if name == seq!['C', '3'] {
        Some(Register::C3)
    } else if name == seq!['C', '4'] {
        Some(Register::C4)
    } else if name == seq!['C', '5'] {
        Some(Register::C5)
    } else {
        None
    }
}

/// Length of the first token of `text`: the number of characters before its
/// first separator, or before its end if it holds none.
pub open spec fn token_len(text: Seq<char>) -> nat
    decreases text.len(),
{
    if text.len() == 0 || text[0] == SEPARATOR {
        0
    } else {
        1 + token_len(text.drop_first())
    }
}

/// The pitch classes that the tokens of `text` name, in order; a token that
/// names none adds nothing.
pub open spec fn sequence_of(text: Seq<char>) -> Seq<Semitone>
    decreases text.len(),
{
    let len = token_len(text);
    let head = match semitone_of(text.take(len as int)) {
        Some(p) => seq![p],
        None => seq![],
    };
    if len < text.len() {
        head + sequence_of(text.skip(len as int + 1))
    } else {
        head
    }
}

/// The natural pitch class that a letter names.
pub open spec fn natural_named(letter: char) -> Option<Semitone> {
    if letter == 'C' {
        Some(Semitone::C)
    } else if letter == 'D' {
        Some(Semitone::D)
    } else if letter == 'E' {
        Some(Semitone::E)
    } else if letter == 'F' {
        Some(Semitone::F)
    } else if letter == 'G' {
        Some(Semitone::G)
    } else if letter == 'A' {
        Some(Semitone::A)
    } else if letter == 'B' {
        Some(Semitone::B)
    } else {
        None
    }
}

/// The sharp pitch class that a letter names.
pub open spec fn sharp_named(letter: char) -> Option<Semitone> {
    if letter == 'C' {
        Some(Semitone::CSharp)
    } else if letter == 'D' {
        Some(Semitone::DSharp)
    } else if letter == 'F' {
        Some(Semitone::FSharp)
    } else if letter == 'G' {
        Some(Semitone::GSharp)
    } else if letter == 'A' {
        Some(Semitone::ASharp)
    } else {
        None
    }
}

/// The pitch class that a name of `len` characters stands for, `first` and
/// `second` being its first two: a letter alone names a natural, a letter
/// and the sharp mark name a sharp.
pub open spec fn semitone_spelled(len: nat, first: char, second: char) -> Option<Semitone> {
    if len == 1 {
        natural_named(first)
    } else if len == 2 && second == SHARP {
        sharp_named(first)
    } else {
        None
    }
}

/// The register that a digit numbers.
pub open spec fn register_numbered(digit: char) -> Option<Register> {
    if digit == '0' {
        Some(Register::C0)
    } else if digit == '1' {
        Some(Register::C1)
    } else if digit == '2' {
        Some(Register::C2)
    } else if digit == '3' {
        Some(Register::C3)
    } else if digit == '4' {
        Some(Register::C4)
    } else if digit == '5' {
        Some(Register::C5)
    } else {
        None
    }
}

/// A name of one or two characters is a written pitch class if and only if
/// it holds the same characters.
proof fn lemma_names_differ(name: Seq<char>)
    requires
        1 <= name.len() <= 2,
    ensures
        name.len() == 1 ==> (name == seq!['C'] <==> name[0] == 'C') && (name == seq!['D']
            <==> name[0] == 'D') && (name == seq!['E'] <==> name[0] == 'E') && (name == seq!['F']
            <==> name[0] == 'F') && (name == seq!['G'] <==> name[0] == 'G') && (name == seq!['A']
            <==> name[0] == 'A') && (name == seq!['B'] <==> name[0] == 'B'),
        name.len() == 2 ==> (name == seq!['C', 'S'] <==> name[0] == 'C' && name[1] == 'S') && (name
            == seq!['D', 'S'] <==> name[0] == 'D' && name[1] == 'S') && (name == seq!['F', 'S']
            <==> name[0] == 'F' && name[1] == 'S') && (name == seq!['G', 'S'] <==> name[0] == 'G'
            && name[1] == 'S') && (name == seq!['A', 'S'] <==> name[0] == 'A' && name[1] == 'S'),
{
    if name.len() == 1 {
        assert(name =~= seq![name[0]]);
        assert(seq!['C'][0] == 'C' && seq!['D'][0] == 'D' && seq!['E'][0] == 'E' && seq!['F'][0]
            == 'F' && seq!['G'][0] == 'G' && seq!['A'][0] == 'A' && seq!['B'][0] == 'B');
    } else {
        assert(name =~= seq![name[0], name[1]]);
        assert(seq!['C', 'S'][0] == 'C' && seq!['C', 'S'][1] == 'S');
        assert(seq!['D', 'S'][0] == 'D' && seq!['D', 'S'][1] == 'S');
        assert(seq!['F', 'S'][0] == 'F' && seq!['F', 'S'][1] == 'S');
        assert(seq!['G', 'S'][0] == 'G' && seq!['G', 'S'][1] == 'S');
        assert(seq!['A', 'S'][0] == 'A' && seq!['A', 'S'][1] == 'S');
    }
}

/// A name stands for the pitch class that its length and its first two
/// characters spell.
pub proof fn lemma_semitone_spelled(name: Seq<char>)
    ensures
        semitone_of(name) == semitone_spelled(name.len(), name[0], name[1]),
{
    if 1 <= name.len() <= 2 {
        lemma_names_differ(name);
    }
}

/// A name stands for a register if it is the letter `C` and a digit that
/// numbers a register, and for that register.
pub proof fn lemma_register_spelled(name: Seq<char>)
    ensures
        register_of(name) == if name.len() == 2 && name[0] == 'C' {
            register_numbered(name[1])
        } else {
            None
        },
{
    if name.len() == 2 {
        assert(name =~= seq![name[0], name[1]]);
        assert(seq!['C', '0'][0] == 'C' && seq!['C', '0'][1] == '0');
        assert(seq!['C', '1'][0] == 'C' && seq!['C', '1'][1] == '1');
        assert(seq!['C', '2'][0] == 'C' && seq!['C', '2'][1] == '2');
        assert(seq!['C', '3'][0] == 'C' && seq!['C', '3'][1] == '3');
        assert(seq!['C', '4'][0] == 'C' && seq!['C', '4'][1] == '4');
        assert(seq!['C', '5'][0] == 'C' && seq!['C', '5'][1] == '5');
    }
}

/// The first token of `text` ends at `end` if no separator stands before
/// `end` and one stands there, or the text ends there.
pub proof fn lemma_token_len(text: Seq<char>, end: int)
    requires
        0 <= end <= text.len(),
        forall|j: int| 0 <= j < end ==> text[j] != SEPARATOR,
        end < text.len() ==> text[end] == SEPARATOR,
    ensures
        token_len(text) == end,
    decreases end,
{
    if end > 0 {
        let rest = text.drop_first();
        assert forall|j: int| 0 <= j < end - 1 implies rest[j] != SEPARATOR by {
            assert(rest[j] == text[j + 1]);
        }
        lemma_token_len(rest, end - 1);
    }
}

/// The first token of a text ends within the text, at a separator or at
/// the end, and holds no separator.
pub proof fn lemma_token_len_bounds(text: Seq<char>)
    ensures
        token_len(text) <= text.len(),
        forall|j: int| 0 <= j < token_len(text) ==> text[j] != SEPARATOR,
        token_len(text) < text.len() ==> text[token_len(text) as int] == SEPARATOR,
    decreases text.len(),
{
    if text.len() > 0 && text[0] != SEPARATOR {
        let rest = text.drop_first();
        lemma_token_len_bounds(rest);
        assert forall|j: int| 0 <= j < token_len(text) implies text[j] != SEPARATOR by {
            if j > 0 {
                assert(text[j] == rest[j - 1]);
            }
        }
        if token_len(text) < text.len() {
            assert(text[token_len(text) as int] == rest[token_len(rest) as int]);
        }
    }
}

/// A text without a separator is one token: it names one pitch class or
/// none.
pub proof fn lemma_sequence_of_token(text: Seq<char>)
    requires
        !text.contains(SEPARATOR),
    ensures
        sequence_of(text) == match semitone_of(text) {
            Some(p) => seq![p],
            None => seq![],
        },
{
    assert forall|j: int| 0 <= j < text.len() implies text[j] != SEPARATOR by {
        if text[j] == SEPARATOR {
            assert(text.contains(SEPARATOR));
        }
    }
    lemma_token_len(text, text.len() as int);
    assert(text.take(text.len() as int) =~= text);
}

/// Two texts joined by a separator name what the first names, followed by
/// what the second names.
pub proof fn lemma_sequence_of_joined(left: Seq<char>, right: Seq<char>)
    ensures
        sequence_of(left + seq![SEPARATOR] + right) == sequence_of(left) + sequence_of(right),
    decreases left.len(),
{
    let joined = left + seq![SEPARATOR] + right;
    let len = token_len(left) as int;
    lemma_token_len_bounds(left);
    assert forall|j: int| 0 <= j < len implies joined[j] != SEPARATOR by {
        assert(joined[j] == left[j]);
    }
    if len < left.len() {
        assert(joined[len] == left[len]);
        lemma_token_len(joined, len);
        assert(joined.take(len) =~= left.take(len));
        let rest = left.skip(len + 1);
        assert(joined.skip(len + 1) =~= rest + seq![SEPARATOR] + right);
        lemma_sequence_of_joined(rest, right);
        let head = match semitone_of(left.take(len)) {
            Some(p) => seq![p],
            None => seq![],
        };
        assert(sequence_of(joined) =~= head + (sequence_of(rest) + sequence_of(right)));
        assert(sequence_of(left) =~= head + sequence_of(rest));
    } else {
        assert(joined[len] == SEPARATOR);
        lemma_token_len(joined, len);
        assert(joined.take(len) =~= left);
        assert(left.take(len) =~= left);
        assert(joined.skip(len + 1) =~= right);
    }
}

/// What the token of `text` that starts at `start` and ends at `end` adds to
/// a sequence, and where the rest of the sequence comes from.
proof fn lemma_sequence_step(text: Seq<char>, start: int, end: int)
    requires
        0 <= start <= end <= text.len(),
        forall|j: int| start <= j < end ==> text[j] != SEPARATOR,
        end < text.len() ==> text[end] == SEPARATOR,
    ensures
        sequence_of(text.skip(start)) == (match semitone_of(text.subrange(start, end)) {
            Some(p) => seq![p],
            None => seq![],
        }) + (if end < text.len() {
            sequence_of(text.skip(end + 1))
        } else {
            seq![]
        }),
{
    let rest = text.skip(start);
    lemma_token_len(rest, end - start);
    assert(rest.take(end - start) =~= text.subrange(start, end));
    if end < text.len() {
        assert(rest.skip(end - start + 1) =~= text.skip(end + 1));
    }
}

/// Reads the pitch class that a name of `len` characters stands for, `first`
/// and `second` being its first two.
fn semitone_from_parts(len: usize, first: char, second: char) -> (semitone: Option<Semitone>)
    ensures
        semitone == semitone_spelled(len as nat, first, second),
{
    if len == 1 {
        if first == 'C' {
            Some(Semitone::C)
        } else if first == 'D' {
            Some(Semitone::D)
        } else if first == 'E' {
            Some(Semitone::E)
        } else if first == 'F' {
            Some(Semitone::F)
        } else if first == 'G' {
            Some(Semitone::G)
        } else if first == 'A' {
            Some(Semitone::A)
        } else if first == 'B' {
            Some(Semitone::B)
        } else {
            None
        }
    } else if len == 2 && second == SHARP {
        if first == 'C' {
            Some(Semitone::CSharp)
        } else if first == 'D' {
            Some(Semitone::DSharp)
        } else if first == 'F' {
            Some(Semitone::FSharp)
        } else if first == 'G' {
            Some(Semitone::GSharp)
        } else if first == 'A' {
            Some(Semitone::ASharp)
        } else {
            None
        }
    } else {
        None
    }
}

/// Reads a pitch class from its written form: one of `C`, `CS`, `D`, `DS`,
/// `E`, `F`, `FS`, `G`, `GS`, `A`, `AS` and `B`.
pub fn semitone_from_str(s: &str) -> (semitone: Option<Semitone>)
    ensures
        semitone == semitone_of(s@),
{
    proof {
        lemma_semitone_spelled(s@);
    }
    let len: usize = s.unicode_len();
    if len == 1 {
        semitone_from_parts(1, s.get_char(0), SEPARATOR)
    } else if len == 2 {
        semitone_from_parts(2, s.get_char(0), s.get_char(1))
    } else {
        None
    }
}

/// Reads a register from its written form: one of `C0` to `C5`.
pub fn register_from_str(s: &str) -> (register: Option<Register>)
    ensures
        register == register_of(s@),
{
    proof {
        lemma_register_spelled(s@);
    }
    if s.unicode_len() != 2 {
        return None;
    }
    if s.get_char(0) != 'C' {
        return None;
    }
    let digit = s.get_char(1);
    if digit == '0' {
        Some(Register::C0)
    } else if digit == '1' {
        Some(Register::C1)
    } else if digit == '2' {
        Some(Register::C2)
    } else if digit == '3' {
        Some(Register::C3)
    } else if digit == '4' {
        Some(Register::C4)
    } else if digit == '5' {
        Some(Register::C5)
    } else {
        None
    }
}

/// Reads a sequence of pitch classes from its written form. Tokens that
/// name no pitch class are passed over.
pub fn build_sequence(arg: &str) -> (sequence: Vec<Semitone>)
    ensures
        sequence@ == sequence_of(arg@),
{
    let mut ret_val: Vec<Semitone> = Vec::new();
    // Length of the token being read, counted no further than three, and
    // its first two characters.
    let mut len: usize = 0;
    let mut first: char = SEPARATOR;
    let mut second: char = SEPARATOR;
    let ghost mut start: int = 0;
    let chars = arg.chars();
    proof {
        assert(arg@.skip(0) =~= arg@);
    }
    for c in it: chars
        invariant
            it.seq() == arg@,
            0 <= start <= it.index(),
            forall|j: int| start <= j < it.index() ==> arg@[j] != SEPARATOR,
            sequence_of(arg@) == ret_val@ + sequence_of(arg@.skip(start)),
            len == if it.index() - start < 3 {
                it.index() - start
            } else {
                3
            },
            len >= 1 ==> first == arg@[start],
            len >= 2 ==> second == arg@[start + 1],
    {
        if c == SEPARATOR {
            proof {
                lemma_sequence_step(arg@, start, it.index());
                lemma_semitone_spelled(arg@.subrange(start, it.index()));
            }
            match semitone_from_parts(len, first, second) {
                Some(p) => {
                    ret_val.push(p);
                },
                None => {},
            }
            len = 0;
            proof {
                start = it.index() + 1;
            }
        } else {
            if len == 0 {
                first = c;
            } else if len == 1 {
                second = c;
            }
            if len < 3 {
                len = len + 1;
            }
        }
    }
    proof {
        lemma_sequence_step(arg@, start, arg@.len() as int);
        lemma_semitone_spelled(arg@.subrange(start, arg@.len() as int));
    }
    match semitone_from_parts(len, first, second) {
        Some(p) => {
            ret_val.push(p);
        },
        None => {},
    }
    ret_val
}

} // verus!
