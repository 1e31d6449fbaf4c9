//! The search for repeated object keys in a JSON text.
//!
//! A parsed document no longer shows that a key occurred twice, so the text
//! itself is scanned. The scan reads any text: it follows the nesting of objects
//! and arrays, skips everything else, and stops at the first repeated key or at
//! the first place where it cannot go on.
use crate::openai::bytes::is_ascii_space;
use crate::openai::json::parse_json_string;
use vstd::hash_set::StringHashSet;
use vstd::prelude::*;
use vstd::slice::slice_subrange;

verus! {

/// The deepest nesting that is followed.
pub const MAX_DEPTH: usize = 128;

/// `"`, around a string.
pub const QUOTE: u8 = 0x22;

/// `,`, between members or items.
pub const COMMA: u8 = 0x2c;

/// `:`, between a key and its value.
pub const COLON: u8 = 0x3a;

/// `[`, before the items of an array.
pub const OPEN_BRACKET: u8 = 0x5b;

/// `\`, before an escaped byte of a string.
pub const BACKSLASH: u8 = 0x5c;

/// `]`, after the items of an array.
pub const CLOSE_BRACKET: u8 = 0x5d;

/// `{`, before the members of an object.
pub const OPEN_BRACE: u8 = 0x7b;

/// `}`, after the members of an object.
pub const CLOSE_BRACE: u8 = 0x7d;

/// How the scan of a value ends.
pub enum Scan {
    /// The value ends here; this is what follows it.
    Rest(Seq<u8>),
    /// An object in the value has a key twice.
    Duplicate,
    /// The text is not laid out as a value.
    Invalid,
}

impl Scan {
    /// Whether `bytes` starts with `byte`.
    pub open spec fn starts_with(bytes: Seq<u8>, byte: u8) -> bool {
        bytes.len() > 0 && bytes.first() == byte
    }

    /// Whether `byte` ends a number, `true`, `false` or `null` that it follows.
    pub open spec fn is_delimiter(byte: u8) -> bool {
        ||| crate::openai::bytes::is_space(byte)
        ||| byte == COMMA
        ||| byte == CLOSE_BRACKET
        ||| byte == CLOSE_BRACE
    }

    /// What follows the closing quote of a string whose opening quote is just
    /// before `bytes`; none if it is not closed. A backslash hides the byte
    /// after it.
    pub open spec fn after_string(bytes: Seq<u8>) -> Option<Seq<u8>>
        decreases bytes.len(),
    {
        if bytes.len() == 0 {
            None
        } else if bytes.first() == QUOTE {
            Some(bytes.drop_first())
        } else if bytes.first() != BACKSLASH {
            Scan::after_string(bytes.drop_first())
        } else if bytes.len() > 1 {
            Scan::after_string(bytes.skip(2))
        } else {
            None
        }
    }

    /// What follows the run of bytes up to the first delimiter.
    pub open spec fn after_primitive(bytes: Seq<u8>) -> Seq<u8>
        decreases bytes.len(),
    {
        if bytes.len() == 0 || Scan::is_delimiter(bytes.first()) {
            bytes
        } else {
            Scan::after_primitive(bytes.drop_first())
        }
    }

    /// The scan of a value at the start of `bytes`, in which `levels` levels of
    /// values may lie within each other.
    pub open spec fn value(bytes: Seq<u8>, levels: nat) -> Scan
        decreases levels, 0nat, bytes.len(),
    {
        let text = crate::openai::bytes::trim_start(bytes);
        if levels == 0 || text.len() == 0 {
            Scan::Invalid
        } else if text.first() == OPEN_BRACE {
            Scan::object(text.drop_first(), (levels - 1) as nat)
        } else if text.first() == OPEN_BRACKET {
            Scan::array(text.drop_first(), (levels - 1) as nat)
        } else if text.first() == QUOTE {
            match Scan::after_string(text.drop_first()) {
                Some(rest) => Scan::Rest(rest),
                None => Scan::Invalid,
            }
        } else {
            Scan::Rest(Scan::after_primitive(text))
        }
    }

    /// The scan of an object whose opening brace is just before `bytes`.
    pub open spec fn object(bytes: Seq<u8>, levels: nat) -> Scan
        decreases levels, 2nat, bytes.len(),
    {
        let body = crate::openai::bytes::trim_start(bytes);
        if Scan::starts_with(body, CLOSE_BRACE) {
            Scan::Rest(body.drop_first())
        } else {
            Scan::members(body, levels, Set::empty())
        }
    }

    /// The scan of an array whose opening bracket is just before `bytes`.
    pub open spec fn array(bytes: Seq<u8>, levels: nat) -> Scan
        decreases levels, 2nat, bytes.len(),
    {
        let body = crate::openai::bytes::trim_start(bytes);
        if Scan::starts_with(body, CLOSE_BRACKET) {
            Scan::Rest(body.drop_first())
        } else {
            Scan::items(body, levels)
        }
    }

    /// The scan of the remaining members of an object that has had the keys
    /// `seen`.
    pub open spec fn members(bytes: Seq<u8>, levels: nat, seen: Set<Seq<char>>) -> Scan
        decreases levels, 1nat, bytes.len(),
    {
        let text = crate::openai::bytes::trim_start(bytes);
        if !Scan::starts_with(text, QUOTE) {
            Scan::Invalid
        } else {
            match Scan::after_string(text.drop_first()) {
                None => Scan::Invalid,
                Some(after_key) => {
                    let quoted = text.take(text.len() - after_key.len());
                    match crate::openai::json::json_string(quoted) {
                        None => Scan::Invalid,
                        Some(key) => {
                            let colon = crate::openai::bytes::trim_start(after_key);
                            if seen.contains(key) {
                                Scan::Duplicate
                            } else if !Scan::starts_with(colon, COLON) {
                                Scan::Invalid
                            } else {
                                match Scan::value(colon.drop_first(), levels) {
                                    Scan::Rest(after_value) => {
                                        let next = crate::openai::bytes::trim_start(after_value);
                                        if Scan::starts_with(next, CLOSE_BRACE) {
                                            Scan::Rest(next.drop_first())
                                        } else if Scan::starts_with(next, COMMA)
                                            && next.len() <= bytes.len() {
                                            Scan::members(
                                                next.drop_first(),
                                                levels,
                                                seen.insert(key),
                                            )
                                        } else {
                                            Scan::Invalid
                                        }
                                    },
                                    stopped => stopped,
                                }
                            }
                        },
                    }
                },
            }
        }
    }

    /// The scan of the remaining items of an array.
    pub open spec fn items(bytes: Seq<u8>, levels: nat) -> Scan
        decreases levels, 1nat, bytes.len(),
    {
        match Scan::value(bytes, levels) {
            Scan::Rest(after_value) => {
                let next = crate::openai::bytes::trim_start(after_value);
                if Scan::starts_with(next, CLOSE_BRACKET) {
                    Scan::Rest(next.drop_first())
                } else if Scan::starts_with(next, COMMA) && next.len() <= bytes.len() {
                    Scan::items(next.drop_first(), levels)
                } else {
                    Scan::Invalid
                }
            },
            stopped => stopped,
        }
    }

    /// The scan of a whole document.
    pub open spec fn document(bytes: Seq<u8>) -> Scan {
        Scan::value(bytes, (MAX_DEPTH + 1) as nat)
    }
}

/// Why a scan stops early.
#[derive(Clone, Copy, Debug, Eq, PartialEq, Structural)]
enum ScanError {
    Duplicate,
    Invalid,
}

/// How many levels of values may lie within each other, the outermost of which
/// lies within `depth` others.
spec fn levels_below(depth: usize) -> nat {
    if depth <= MAX_DEPTH {
        (MAX_DEPTH + 1 - depth) as nat
    } else {
        0
    }
}

/// A position in a JSON text.
struct JsonCursor<'a> {
    input: &'a [u8],
    position: usize,
}

impl<'a> JsonCursor<'a> {
    /// What lies ahead.
    spec fn rest(self) -> Seq<u8> {
        self.input@.skip(self.position as int)
    }

    /// Whether the cursor is within the text, or at its end.
    spec fn wf(self) -> bool {
        self.position <= self.input.len()
    }

    /// Whether `self` is `before`, moved ahead to where `rest` lies ahead.
    spec fn moved(self, before: Self, rest: Seq<u8>) -> bool {
        &&& self.wf()
        &&& self.input == before.input
        &&& self.position >= before.position
        &&& self.rest() == rest
    }

    /// Whether `result` and `self` are what `scan` says, from `before` on.
    spec fn reports(self, before: Self, result: Result<(), ScanError>, scan: Scan) -> bool {
        &&& self.wf()
        &&& self.input == before.input
        &&& self.position >= before.position
        &&& match scan {
            Scan::Rest(rest) => result is Ok && self.rest() == rest,
            Scan::Duplicate => result == Err::<(), ScanError>(ScanError::Duplicate),
            Scan::Invalid => result == Err::<(), ScanError>(ScanError::Invalid),
        }
    }

    /// The byte at the cursor.
    fn current(&self) -> (byte: Option<u8>)
        requires
            self.wf(),
        ensures
            byte == if self.rest().len() > 0 {
                Some(self.rest().first())
            } else {
                None
            },
    {
        if self.position < self.input.len() {
            Some(self.input[self.position])
        } else {
            None
        }
    }

    /// Moves past the byte at the cursor.
    fn advance(&mut self)
        requires
            old(self).wf(),
            old(self).rest().len() > 0,
        ensures
            final(self).moved(*old(self), old(self).rest().drop_first()),
            final(self).position == old(self).position + 1,
    {
        assert(self.rest().drop_first() == self.input@.skip(self.position + 1));
        self.position = self.position + 1;
    }

    /// Moves past the white space at the cursor.
    fn skip_whitespace(&mut self)
        requires
            old(self).wf(),
        ensures
            final(self).moved(*old(self), crate::openai::bytes::trim_start(old(self).rest())),
    {
        let ghost before = *self;
        loop
            invariant
                self.moved(before, self.rest()),
                crate::openai::bytes::trim_start(self.rest()) == crate::openai::bytes::trim_start(
                    before.rest(),
                ),
            ensures
                self.moved(before, crate::openai::bytes::trim_start(before.rest())),
            decreases self.rest().len(),
        {
            match self.current() {
                Some(byte) => {
                    if !is_ascii_space(byte) {
                        break ;
                    }
                    self.advance();
                },
                None => {
                    break ;
                },
            }
        }
    }

    /// Moves to the first delimiter.
    fn scan_primitive(&mut self)
        requires
            old(self).wf(),
        ensures
            final(self).moved(*old(self), Scan::after_primitive(old(self).rest())),
    {
        let ghost before = *self;
        loop
            invariant
                self.moved(before, self.rest()),
                Scan::after_primitive(self.rest()) == Scan::after_primitive(before.rest()),
            ensures
                self.moved(before, Scan::after_primitive(before.rest())),
            decreases self.rest().len(),
        {
            match self.current() {
                Some(byte) => {
                    if is_ascii_space(byte) || byte == COMMA || byte == CLOSE_BRACKET || byte
                        == CLOSE_BRACE {
                        break ;
                    }
                    self.advance();
                },
                None => {
                    break ;
                },
            }
        }
    }

    /// Moves past a string. The cursor is at its opening quote.
    fn scan_string(&mut self) -> (result: Result<(), ScanError>)
        requires
            old(self).wf(),
        ensures
            final(self).reports(
                *old(self),
                result,
                if !Scan::starts_with(old(self).rest(), QUOTE) {
                    Scan::Invalid
                } else {
                    match Scan::after_string(old(self).rest().drop_first()) {
                        Some(rest) => Scan::Rest(rest),
                        None => Scan::Invalid,
                    }
                },
            ),
            result is Ok ==> final(self).position > old(self).position,
            !Scan::starts_with(old(self).rest(), QUOTE) ==> *final(self) == *old(self),
    {
        let ghost before = *self;
        match self.current() {
            Some(byte) => {
                if byte != QUOTE {
                    return Err(ScanError::Invalid);
                }
            },
            None => {
                return Err(ScanError::Invalid);
            },
        }
        self.advance();
        loop
            invariant
                before == *old(self),
                self.moved(before, self.rest()),
                self.position > before.position,
                Scan::starts_with(before.rest(), QUOTE),
                Scan::after_string(self.rest()) == Scan::after_string(before.rest().drop_first()),
            decreases self.rest().len(),
        {
            match self.current() {
                None => {
                    return Err(ScanError::Invalid);
                },
                Some(byte) => {
                    if byte == QUOTE {
                        self.advance();
                        return Ok(());
                    }
                    if byte == BACKSLASH {
                        let ghost escape = self.rest();
                        self.advance();
                        if self.current().is_none() {
                            return Err(ScanError::Invalid);
                        }
                        self.advance();
                        assert(self.rest() == escape.skip(2));
                    } else {
                        self.advance();
                    }
                },
            }
        }
    }

    /// Moves past a value that lies within `depth` others, unless that is too deep.
    fn scan_value(&mut self, depth: usize) -> (result: Result<(), ScanError>)
        requires
            old(self).wf(),
        ensures
            final(self).reports(
                *old(self),
                result,
                Scan::value(old(self).rest(), levels_below(depth)),
            ),
            depth > MAX_DEPTH ==> *final(self) == *old(self),
        decreases levels_below(depth), 0int,
    {
        if depth > MAX_DEPTH {
            return Err(ScanError::Invalid);
        }
        self.skip_whitespace();
        match self.current() {
            Some(byte) => {
                if byte == OPEN_BRACE {
                    self.scan_object(depth + 1)
                } else if byte == OPEN_BRACKET {
                    self.scan_array(depth + 1)
                } else if byte == QUOTE {
                    self.scan_string()
                } else {
                    self.scan_primitive();
                    Ok(())
                }
            },
            None => Err(ScanError::Invalid),
        }
    }

    /// Moves past an object. The cursor is at its opening brace.
    fn scan_object(&mut self, depth: usize) -> (result: Result<(), ScanError>)
        requires
            old(self).wf(),
            old(self).rest().len() > 0,
        ensures
            final(self).reports(
                *old(self),
                result,
                Scan::object(old(self).rest().drop_first(), levels_below(depth)),
            ),
        decreases levels_below(depth), 1int,
    {
        let ghost before = *self;
        self.advance();
        self.skip_whitespace();
        match self.current() {
            Some(byte) => {
                if byte == CLOSE_BRACE {
                    self.advance();
                    return Ok(());
                }
            },
            None => {},
        }
        let ghost levels = levels_below(depth);
        let ghost whole = Scan::members(self.rest(), levels, Set::empty());
        let mut keys = StringHashSet::new();
        loop
            invariant
                before == *old(self),
                self.moved(before, self.rest()),
                levels == levels_below(depth),
                Scan::members(self.rest(), levels, keys@) == whole,
                whole == Scan::object(before.rest().drop_first(), levels),
            decreases self.rest().len(),
        {
            let ghost start = *self;
            self.skip_whitespace();
            let ghost text = self.rest();
            let key_start: usize = self.position;
            match self.scan_string() {
                Ok(()) => {},
                Err(error) => {
                    return Err(error);
                },
            }
            let quoted = slice_subrange(self.input, key_start, self.position);
            assert(quoted@ == text.take(text.len() - self.rest().len()));
            match parse_json_string(quoted) {
                Some(key) => {
                    if !keys.insert(key) {
                        return Err(ScanError::Duplicate);
                    }
                },
                None => {
                    return Err(ScanError::Invalid);
                },
            }
            self.skip_whitespace();
            match self.current() {
                Some(byte) => {
                    if byte != COLON {
                        return Err(ScanError::Invalid);
                    }
                },
                None => {
                    return Err(ScanError::Invalid);
                },
            }
            self.advance();
            match self.scan_value(depth) {
                Ok(()) => {},
                Err(error) => {
                    return Err(error);
                },
            }
            self.skip_whitespace();
            match self.current() {
                Some(byte) => {
                    if byte == COMMA {
                        self.advance();
                    } else if byte == CLOSE_BRACE {
                        self.advance();
                        return Ok(());
                    } else {
                        return Err(ScanError::Invalid);
                    }
                },
                None => {
                    return Err(ScanError::Invalid);
                },
            }
        }
    }

    /// Moves past an array. The cursor is at its opening bracket.
    fn scan_array(&mut self, depth: usize) -> (result: Result<(), ScanError>)
        requires
            old(self).wf(),
            old(self).rest().len() > 0,
        ensures
            final(self).reports(
                *old(self),
                result,
                Scan::array(old(self).rest().drop_first(), levels_below(depth)),
            ),
        decreases levels_below(depth), 1int,
    {
        let ghost before = *self;
        self.advance();
        self.skip_whitespace();
        match self.current() {
            Some(byte) => {
                if byte == CLOSE_BRACKET {
                    self.advance();
                    return Ok(());
                }
            },
            None => {},
        }
        let ghost levels = levels_below(depth);
        let ghost whole = Scan::items(self.rest(), levels);
        loop
            invariant
                before == *old(self),
                self.moved(before, self.rest()),
                levels == levels_below(depth),
                Scan::items(self.rest(), levels) == whole,
                whole == Scan::array(before.rest().drop_first(), levels),
            decreases self.rest().len(),
        {
            match self.scan_value(depth) {
                Ok(()) => {},
                Err(error) => {
                    return Err(error);
                },
            }
            self.skip_whitespace();
            match self.current() {
                Some(byte) => {
                    if byte == COMMA {
                        self.advance();
                    } else if byte == CLOSE_BRACKET {
                        self.advance();
                        return Ok(());
                    } else {
                        return Err(ScanError::Invalid);
                    }
                },
                None => {
                    return Err(ScanError::Invalid);
                },
            }
        }
    }
}

/// Whether an object in the JSON text `input` has a key twice, compared as the
/// keys read once their escapes are resolved.
pub fn has_duplicate_object_key(input: &[u8]) -> (duplicate: bool)
    ensures
        duplicate == (Scan::document(input@) is Duplicate),
{
    let mut cursor = JsonCursor { input, position: 0 };
    assert(cursor.rest() == input@);
    match cursor.scan_value(0) {
        Err(ScanError::Duplicate) => true,
        _ => false,
    }
}

} // verus!
