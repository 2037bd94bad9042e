//! Deciding whether a text is a JSON document.
//!
//! The decision itself is made by the parser of `rustc_serialize`. That parser
//! recurses once for every open array or object, keeps the keys of the open
//! objects in a buffer that it addresses with 16-bit offsets, counts the
//! members of an array in 32 bits, adds up the digits of an exponent in a
//! machine word, and loses track of where it is when a comma stands before the
//! `}` of an object inside another value. This module follows a text as far as
//! brackets, string literals and keys go, states a set of texts on which none
//! of that can go wrong, and tests for it in verified code. The set is not
//! all such texts: the reader here knows no grammar, so a text that begins
//! with an array or an object, and that the parser would give up on early, can
//! still be left out for what stands later in it.

use rustc_serialize::json::Json;
use vstd::prelude::*;
use vstd::string::StringSliceAdditionalSpecFns;

verus! {

/// Whether `text` is a JSON document, as `rustc_serialize::json::Json::from_str`
/// reads it. The crate does not define the grammar; it only names the answer.
pub uninterp spec fn is_json(text: Seq<char>) -> bool;

/// The longest text, in bytes, that is handed to the parser.
pub const MAX_DOCUMENT_BYTES: usize = 4294967295;

/// The most bytes that the keys of the open objects may have together, at any
/// point of a text handed to the parser.
pub const MAX_KEY_BYTES: usize = 65535;

/// The deepest that arrays and objects may be nested in a text handed to the parser.
pub const MAX_NESTING: usize = 128;

/// The most digits that an exponent in a text handed to the parser may have.
pub const MAX_EXPONENT_DIGITS: usize = 9;

/// `[` or `{`.
pub open spec fn opens_container(b: u8) -> bool {
    b == 0x5b || b == 0x7b
}

/// `]` or `}`.
pub open spec fn closes_container(b: u8) -> bool {
    b == 0x5d || b == 0x7d
}

/// `"`.
pub open spec fn is_quote(b: u8) -> bool {
    b == 0x22
}

/// `\`.
pub open spec fn is_backslash(b: u8) -> bool {
    b == 0x5c
}

/// An ASCII decimal digit.
pub open spec fn is_digit(b: u8) -> bool {
    0x30 <= b <= 0x39
}

/// `e` or `E`.
pub open spec fn marks_exponent(b: u8) -> bool {
    b == 0x65 || b == 0x45
}

/// `+` or `-`.
pub open spec fn is_sign(b: u8) -> bool {
    b == 0x2b || b == 0x2d
}

/// `,`.
pub open spec fn is_comma(b: u8) -> bool {
    b == 0x2c
}

/// `:`.
pub open spec fn is_colon(b: u8) -> bool {
    b == 0x3a
}

/// A space, a line feed, a tab or a carriage return: what may stand between
/// the parts of a JSON document.
pub open spec fn is_blank(b: u8) -> bool {
    b == 0x20 || b == 0x0a || b == 0x09 || b == 0x0d
}

/// An array or an object that is open.
pub struct Level {
    /// An object, not an array.
    pub object: bool,
    /// The bytes of the key of the member that is being read, in an object.
    pub key: nat,
}

/// The bytes that the keys of the open objects have together.
pub open spec fn keys_held(open: Seq<Level>) -> nat
    decreases open.len(),
{
    if open.len() == 0 {
        0
    } else {
        keys_held(open.drop_last()) + open.last().key
    }
}

/// The larger of two numbers.
pub open spec fn larger(a: nat, b: nat) -> nat {
    if a > b {
        a
    } else {
        b
    }
}

/// Where a reader stands after some bytes of a text.
pub struct Position {
    /// Inside a string literal.
    pub in_string: bool,
    /// Inside a string literal, behind a backslash.
    pub escaped: bool,
    /// The arrays and objects that are open, the innermost last.
    pub open: Seq<Level>,
    /// The most arrays and objects that were open at once.
    pub deepest: nat,
    /// The bytes between the quotes of the string literal that is being read,
    /// or of the last one that was read.
    pub literal: nat,
    /// A string literal has ended, and only blanks have followed it.
    pub closed: bool,
    /// The most bytes that the keys of the open objects had together.
    pub most_keys: nat,
    /// A byte that is no blank has been read.
    pub begun: bool,
    /// The value that the text begins with has ended. What follows it is not
    /// followed any more.
    pub finished: bool,
}

/// Where a reader stands before the first byte.
pub open spec fn start() -> Position {
    Position {
        in_string: false,
        escaped: false,
        open: Seq::empty(),
        deepest: 0,
        literal: 0,
        closed: false,
        most_keys: 0,
        begun: false,
        finished: false,
    }
}

/// Where a reader at `at`, inside a string literal, stands after the byte `b`.
/// A backslash hides the byte that follows it, and a bare quote ends the
/// literal, and with it the value where nothing is open.
pub open spec fn within_literal(at: Position, b: u8) -> Position {
    if at.escaped {
        Position { escaped: false, literal: at.literal + 1, ..at }
    } else if is_backslash(b) {
        Position { escaped: true, literal: at.literal + 1, ..at }
    } else if is_quote(b) {
        Position { in_string: false, closed: true, finished: at.open.len() == 0, ..at }
    } else {
        Position { literal: at.literal + 1, ..at }
    }
}

/// Where a reader at `at`, outside the string literals, stands after the byte
/// `b`. A quote begins a literal and brackets open and close. A colon makes
/// the literal that ended before it the key of the innermost object, in place
/// of the key that the object had. The value that the text begins with ends
/// where its last bracket closes, and where nothing is open, at the first
/// blank after it has begun.
pub open spec fn between_literals(at: Position, b: u8) -> Position {
    if is_quote(b) {
        Position { in_string: true, literal: 0, closed: false, begun: true, ..at }
    } else if is_blank(b) {
        Position { finished: at.begun && at.open.len() == 0, ..at }
    } else if is_colon(b) && at.closed && at.open.len() > 0 && at.open.last().object {
        let open = at.open.drop_last().push(Level { object: true, key: at.literal });
        Position {
            open,
            most_keys: larger(at.most_keys, keys_held(open)),
            literal: 0,
            closed: false,
            ..at
        }
    } else if opens_container(b) {
        let open = at.open.push(Level { object: b == 0x7b, key: 0 });
        Position {
            open,
            deepest: larger(at.deepest, open.len()),
            closed: false,
            begun: true,
            ..at
        }
    } else if closes_container(b) && at.open.len() > 0 {
        let open = at.open.drop_last();
        Position { open, closed: false, finished: open.len() == 0, ..at }
    } else {
        Position { closed: false, begun: true, ..at }
    }
}

/// Where a reader at `at` stands after the byte `b`.
pub open spec fn advance(at: Position, b: u8) -> Position {
    if at.finished {
        at
    } else if at.in_string {
        within_literal(at, b)
    } else {
        between_literals(at, b)
    }
}

/// Where a reader stands after all of `bytes`.
pub open spec fn position_after(bytes: Seq<u8>) -> Position
    decreases bytes.len(),
{
    if bytes.len() == 0 {
        start()
    } else {
        advance(position_after(bytes.drop_last()), bytes.last())
    }
}

/// Where a reader stands before the byte at position `i`.
pub open spec fn position_before(bytes: Seq<u8>, i: int) -> Position {
    position_after(bytes.take(i))
}

/// The most arrays and objects that are open at once anywhere in `bytes`.
pub open spec fn nesting(bytes: Seq<u8>) -> nat {
    position_after(bytes).deepest
}

/// The most bytes that the keys of the open objects have together anywhere in
/// `bytes`.
pub open spec fn most_keys(bytes: Seq<u8>) -> nat {
    position_after(bytes).most_keys
}

/// A byte that a number begins with: a digit or `-`.
pub open spec fn starts_number(b: u8) -> bool {
    is_digit(b) || b == 0x2d
}

/// The first byte at or after position `i` that is no blank, if there is one.
pub open spec fn first_byte(bytes: Seq<u8>, i: int) -> Option<u8>
    decreases bytes.len() - i,
{
    if 0 <= i < bytes.len() {
        if is_blank(bytes[i]) {
            first_byte(bytes, i + 1)
        } else {
            Some(bytes[i])
        }
    } else {
        None
    }
}

/// The digits of an exponent can begin at position `i`: an `e` or `E` that
/// follows a digit stands before it, with at most one sign in between.
pub open spec fn exponent_at(bytes: Seq<u8>, i: int) -> bool {
    &&& 2 <= i < bytes.len()
    &&& (marks_exponent(bytes[i - 1]) && is_digit(bytes[i - 2])) || (3 <= i && is_sign(
        bytes[i - 1],
    ) && marks_exponent(bytes[i - 2]) && is_digit(bytes[i - 3]))
}

/// The number of consecutive digits that begin at position `i`.
pub open spec fn digit_run(bytes: Seq<u8>, i: int) -> nat
    decreases bytes.len() - i,
{
    if 0 <= i < bytes.len() && is_digit(bytes[i]) {
        1 + digit_run(bytes, i + 1)
    } else {
        0
    }
}

/// An exponent of more than `MAX_EXPONENT_DIGITS` digits begins at position
/// `i`, outside the string literals and before the value has ended.
pub open spec fn long_exponent_at(bytes: Seq<u8>, i: int) -> bool {
    &&& exponent_at(bytes, i)
    &&& !position_before(bytes, i).in_string
    &&& !position_before(bytes, i).finished
    &&& digit_run(bytes, i) > MAX_EXPONENT_DIGITS
}

/// No exponent in `bytes` has more than `MAX_EXPONENT_DIGITS` digits.
pub open spec fn short_exponents(bytes: Seq<u8>) -> bool {
    forall|i: int| !#[trigger] long_exponent_at(bytes, i)
}

/// From position `i` on there are blanks only, and then a `}`.
pub open spec fn brace_follows(bytes: Seq<u8>, i: int) -> bool
    decreases bytes.len() - i,
{
    if 0 <= i < bytes.len() {
        if is_blank(bytes[i]) {
            brace_follows(bytes, i + 1)
        } else {
            bytes[i] == 0x7d
        }
    } else {
        false
    }
}

/// At position `i` stands a comma on which the parser can lose track: it is
/// outside the string literals, before the value has ended, directly inside
/// an object that is itself inside an array or an object, and after it come
/// blanks only and then a `}`.
pub open spec fn lost_comma_at(bytes: Seq<u8>, i: int) -> bool {
    &&& 0 <= i < bytes.len()
    &&& is_comma(bytes[i])
    &&& !position_before(bytes, i).in_string
    &&& !position_before(bytes, i).finished
    &&& position_before(bytes, i).open.len() >= 2
    &&& position_before(bytes, i).open.last().object
    &&& brace_follows(bytes, i + 1)
}

/// No comma in `bytes` is one on which the parser can lose track.
pub open spec fn keeps_track(bytes: Seq<u8>) -> bool {
    forall|i: int| !#[trigger] lost_comma_at(bytes, i)
}

/// A text that stays within the limits of the parser wherever this reader
/// follows it.
pub open spec fn within_limits(bytes: Seq<u8>) -> bool {
    &&& bytes.len() <= MAX_DOCUMENT_BYTES
    &&& most_keys(bytes) <= MAX_KEY_BYTES
    &&& nesting(bytes) <= MAX_NESTING
    &&& short_exponents(bytes)
    &&& keeps_track(bytes)
}

/// Texts, as UTF-8, that the parser can be trusted with. A text that begins
/// with an array or an object has to stay within the limits up to the end of
/// that value; one that begins with a number has to have a short exponent;
/// every other text is read as a word or a string literal, or given up on at
/// its first byte. The parser can be trusted with more texts than these:
/// inside an array or an object the reader here goes on where the parser has
/// given up.
pub open spec fn parser_safe(bytes: Seq<u8>) -> bool {
    match first_byte(bytes, 0) {
        Some(b) => if opens_container(b) {
            within_limits(bytes)
        } else if starts_number(b) {
            short_exponents(bytes)
        } else {
            true
        },
        None => true,
    }
}

/// Calls `rustc_serialize::json::Json::from_str` and reports whether it returned `Ok`.
///
/// Not proved: that the answer depends on the text alone, which is what naming it
/// `is_json` claims, and that the call returns on every text that `parser_safe`
/// admits. The parser reads its input character by character and keeps no state
/// between calls. Why `parser_safe` is enough:
/// - The parser skips blanks and reads one value, and after it only looks for
///   what is no blank. The value has ended where `advance` says so, or before.
///   Only in an array or an object does the parser call itself, hold keys,
///   count members or read commas, and only in a number does it read an
///   exponent.
/// - Up to its first error it takes string literals, brackets and the colon
///   after a key as `advance` does.
/// - It calls itself once for each array or object that is open, so it goes no
///   deeper than `nesting`.
/// - It holds the keys of the open objects in one buffer, one key for each
///   object, and addresses them by 16-bit offsets. A key is no longer than the
///   literal it is written as, so the buffer never holds more than `most_keys`.
/// - It counts the members of an array in 32 bits, and there are fewer members
///   than bytes.
/// - It reads an exponent only outside the string literals and behind a digit,
///   and adds up its digits in a `usize`, which nine digits cannot overflow.
/// - After a comma and a `}` inside an object it takes one entry off its record
///   of open values, which is one too many where the object is inside another
///   value, and it can then panic. It reads a comma and a `}` so only where
///   nothing but blanks stands between them.
#[verifier::external_body]
pub(crate) fn parses_as_json(text: &str) -> (ok: bool)
    requires
        parser_safe(text.spec_bytes()),
    ensures
        ok == is_json(text@),
{
    Json::from_str(text).is_ok()
}

/// Reading one byte more of `bytes` is one `advance`.
proof fn position_step(bytes: Seq<u8>, i: int)
    requires
        0 <= i < bytes.len(),
    ensures
        position_before(bytes, i + 1) == advance(position_before(bytes, i), bytes[i]),
{
    assert(bytes.take(i + 1).drop_last() =~= bytes.take(i));
}

/// A run of digits from `i` up to `j` is `j - i` long, plus what follows at `j`.
proof fn digit_run_split(bytes: Seq<u8>, i: int, j: int)
    requires
        0 <= i <= j <= bytes.len(),
        forall|k: int| i <= k < j ==> is_digit(#[trigger] bytes[k]),
    ensures
        digit_run(bytes, i) == (j - i) + digit_run(bytes, j),
    decreases j - i,
{
    if i < j {
        digit_run_split(bytes, i + 1, j);
    }
}

/// An array or an object that is open, as the reader holds it.
struct Container {
    object: bool,
    key: usize,
}

impl View for Container {
    type V = Level;

    closed spec fn view(&self) -> Level {
        Level { object: self.object, key: self.key as nat }
    }
}

impl DeepView for Container {
    type V = Level;

    closed spec fn deep_view(&self) -> Level {
        self@
    }
}

/// What reading through a text finds.
#[derive(Clone, Copy, Debug, PartialEq, Eq, Structural)]
pub struct Reading {
    /// The most arrays and objects that are open at once.
    pub deepest: usize,
    /// The most bytes that the keys of the open objects have together.
    pub most_keys: usize,
    /// No exponent has too many digits.
    pub short_exponents: bool,
    /// No comma is one on which the parser can lose track.
    pub keeps_track: bool,
}

/// Reads through `bytes` once.
pub fn read_through(bytes: &[u8]) -> (reading: Reading)
    ensures
        reading.deepest == nesting(bytes@),
        reading.most_keys == most_keys(bytes@),
        reading.short_exponents == short_exponents(bytes@),
        reading.keeps_track == keeps_track(bytes@),
{
    let mut in_string: bool = false;
    let mut escaped: bool = false;
    let mut open: Vec<Container> = Vec::new();
    let mut deepest: usize = 0;
    let mut literal: usize = 0;
    let mut closed: bool = false;
    let mut held: usize = 0;
    let mut most: usize = 0;
    let mut begun: bool = false;
    let mut finished: bool = false;
    let mut short: bool = true;
    let mut tidy: bool = true;
    let ghost mut long_at: int = 0;
    let ghost mut lost_at: int = 0;
    let mut i: usize = 0;
    assert(open.deep_view() =~= Seq::<Level>::empty());
    assert(bytes@.take(0) =~= Seq::<u8>::empty());
    while i < bytes.len()
        invariant
            i <= bytes.len(),
            open.len() <= deepest <= i,
            held + literal <= i,
            most <= i,
            held == keys_held(open.deep_view()),
            position_before(bytes@, i as int) == (Position {
                in_string,
                escaped,
                open: open.deep_view(),
                deepest: deepest as nat,
                literal: literal as nat,
                closed,
                most_keys: most as nat,
                begun,
                finished,
            }),
            short ==> forall|k: int| 0 <= k < i ==> !#[trigger] long_exponent_at(bytes@, k),
            !short ==> long_exponent_at(bytes@, long_at),
            tidy ==> forall|k: int| 0 <= k < i ==> !#[trigger] lost_comma_at(bytes@, k),
            !tidy ==> lost_comma_at(bytes@, lost_at),
        decreases bytes.len() - i,
    {
        proof {
            position_step(bytes@, i as int);
        }
        let b: u8 = bytes[i];
        let ghost open_before = open.deep_view();
        if !in_string && !finished {
            if is_exponent_at(bytes, i) && digit_run_exceeds(bytes, i, MAX_EXPONENT_DIGITS) {
                short = false;
                proof {
                    long_at = i as int;
                }
            }
            if b == 0x2c && open.len() >= 2 && open[open.len() - 1].object && is_brace_next(
                bytes,
                i + 1,
            ) {
                tidy = false;
                proof {
                    lost_at = i as int;
                }
            }
        }
        if finished {
        } else if in_string {
            if escaped {
                escaped = false;
                literal = literal + 1;
            } else if b == 0x5c {
                escaped = true;
                literal = literal + 1;
            } else if b == 0x22 {
                in_string = false;
                closed = true;
                finished = open.len() == 0;
            } else {
                literal = literal + 1;
            }
        } else if b == 0x22 {
            in_string = true;
            literal = 0;
            closed = false;
            begun = true;
        } else if b == 0x20 || b == 0x0a || b == 0x09 || b == 0x0d {
            finished = begun && open.len() == 0;
        } else if b == 0x3a && closed && open.len() > 0 && open[open.len() - 1].object {
            let last = open.len() - 1;
            let old_key: usize = open[last].key;
            open.pop();
            assert(open.deep_view() =~= open_before.drop_last());
            open.push(Container { object: true, key: literal });
            assert(open.deep_view() =~= open_before.drop_last().push(
                Level { object: true, key: literal as nat },
            ));
            assert(open.deep_view().drop_last() =~= open_before.drop_last());
            held = held - old_key + literal;
            if held > most {
                most = held;
            }
            literal = 0;
            closed = false;
        } else if b == 0x5b || b == 0x7b {
            open.push(Container { object: b == 0x7b, key: 0 });
            assert(open.deep_view() =~= open_before.push(Level { object: b == 0x7b, key: 0 }));
            assert(open.deep_view().drop_last() =~= open_before);
            if open.len() > deepest {
                deepest = open.len();
            }
            closed = false;
            begun = true;
        } else if (b == 0x5d || b == 0x7d) && open.len() > 0 {
            let last = open.len() - 1;
            let old_key: usize = open[last].key;
            open.pop();
            assert(open.deep_view() =~= open_before.drop_last());
            held = held - old_key;
            closed = false;
            finished = open.len() == 0;
        } else {
            closed = false;
            begun = true;
        }
        i = i + 1;
    }
    proof {
        assert(bytes@.take(bytes.len() as int) =~= bytes@);
    }
    Reading { deepest, most_keys: most, short_exponents: short, keeps_track: tidy }
}

/// Whether more than `limit` consecutive digits begin at position `start`.
pub fn digit_run_exceeds(bytes: &[u8], start: usize, limit: usize) -> (exceeds: bool)
    ensures
        exceeds == (digit_run(bytes@, start as int) > limit),
{
    if start >= bytes.len() {
        return false;
    }
    let mut j: usize = start;
    while j < bytes.len() && j - start <= limit && 0x30 <= bytes[j] && bytes[j] <= 0x39
        invariant
            start <= j <= bytes.len(),
            j - start <= limit + 1,
            forall|k: int| start <= k < j ==> is_digit(#[trigger] bytes@[k]),
        decreases bytes.len() - j,
    {
        j = j + 1;
    }
    proof {
        digit_run_split(bytes@, start as int, j as int);
    }
    j - start > limit
}

/// Whether the digits of an exponent can begin at position `i`.
pub fn is_exponent_at(bytes: &[u8], i: usize) -> (found: bool)
    ensures
        found == exponent_at(bytes@, i as int),
{
    if i < 2 || i >= bytes.len() {
        return false;
    }
    let before: u8 = bytes[i - 1];
    if before == 0x65 || before == 0x45 {
        return 0x30 <= bytes[i - 2] && bytes[i - 2] <= 0x39;
    }
    if i < 3 || !(before == 0x2b || before == 0x2d) {
        return false;
    }
    let marker: u8 = bytes[i - 2];
    (marker == 0x65 || marker == 0x45) && 0x30 <= bytes[i - 3] && bytes[i - 3] <= 0x39
}

/// Whether blanks only, and then a `}`, begin at position `start`.
pub fn is_brace_next(bytes: &[u8], start: usize) -> (found: bool)
    ensures
        found == brace_follows(bytes@, start as int),
{
    if start >= bytes.len() {
        return false;
    }
    let mut j: usize = start;
    while j < bytes.len() && (bytes[j] == 0x20 || bytes[j] == 0x0a || bytes[j] == 0x09 || bytes[j]
        == 0x0d)
        invariant
            start <= j <= bytes.len(),
            brace_follows(bytes@, start as int) == brace_follows(bytes@, j as int),
        decreases bytes.len() - j,
    {
        j = j + 1;
    }
    j < bytes.len() && bytes[j] == 0x7d
}

/// Finds the first byte at or after position `start` that is no blank.
pub fn first_byte_from(bytes: &[u8], start: usize) -> (first: Option<u8>)
    ensures
        first == first_byte(bytes@, start as int),
{
    if start >= bytes.len() {
        return None;
    }
    let mut j: usize = start;
    while j < bytes.len() && (bytes[j] == 0x20 || bytes[j] == 0x0a || bytes[j] == 0x09 || bytes[j]
        == 0x0d)
        invariant
            start <= j <= bytes.len(),
            first_byte(bytes@, start as int) == first_byte(bytes@, j as int),
        decreases bytes.len() - j,
    {
        j = j + 1;
    }
    if j < bytes.len() {
        Some(bytes[j])
    } else {
        None
    }
}

/// Whether `bytes` stay within the limits of the parser.
pub fn is_within_limits(bytes: &[u8]) -> (within: bool)
    ensures
        within == within_limits(bytes@),
{
    if bytes.len() > MAX_DOCUMENT_BYTES {
        return false;
    }
    let reading = read_through(bytes);
    reading.most_keys <= MAX_KEY_BYTES && reading.deepest <= MAX_NESTING && reading.short_exponents
        && reading.keeps_track
}

/// Whether `bytes` is a text that the parser can be trusted with.
pub fn is_parser_safe(bytes: &[u8]) -> (safe: bool)
    ensures
        safe == parser_safe(bytes@),
{
    match first_byte_from(bytes, 0) {
        Some(b) => if b == 0x5b || b == 0x7b {
            is_within_limits(bytes)
        } else if (0x30 <= b && b <= 0x39) || b == 0x2d {
            read_through(bytes).short_exponents
        } else {
            true
        },
        None => true,
    }
}

/// Whether `text` is a JSON document, or `None` where the text is not among
/// those that the parser can be trusted with.
pub fn check_json(text: &str) -> (verdict: Option<bool>)
    ensures
        verdict == if parser_safe(text.spec_bytes()) {
            Some(is_json(text@))
        } else {
            None
        },
{
    if is_parser_safe(text.as_bytes()) {
        Some(parses_as_json(text))
    } else {
        None
    }
}

} // verus!
