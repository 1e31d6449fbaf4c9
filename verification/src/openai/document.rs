//! JSON texts and the keys that repeat in them: what the scan of
//! [`crate::openai::scan`] is for, stated over the layout of a text.
use crate::openai::scan::{
    Scan, BACKSLASH, CLOSE_BRACE, CLOSE_BRACKET, COLON, COMMA, MAX_DEPTH, OPEN_BRACE, OPEN_BRACKET,
    QUOTE,
};
use vstd::prelude::*;

verus! {

/// A JSON text, with its strings as they are written and with the white space
/// between its tokens.
pub enum Doc {
    /// A number, `true`, `false` or `null`.
    Primitive(Seq<u8>),
    /// A string, as what stands between its quotes.
    Text(Seq<u8>),
    /// An array. `blank` is what an array without items holds.
    Array { items: Seq<Slot>, blank: Seq<u8> },
    /// An object. `blank` is what an object without members holds.
    Object { members: Seq<Entry>, blank: Seq<u8> },
}

/// A value with the white space around it.
pub struct Slot {
    /// The white space before the value.
    pub before: Seq<u8>,
    /// The value.
    pub doc: Doc,
    /// The white space after the value.
    pub after: Seq<u8>,
}

/// A member of an object.
pub struct Entry {
    /// The white space before the key.
    pub before: Seq<u8>,
    /// The key, as what stands between its quotes.
    pub key: Seq<u8>,
    /// The white space between the key and the colon.
    pub gap: Seq<u8>,
    /// The value.
    pub slot: Slot,
}

impl Entry {
    /// The key as it is written.
    pub open spec fn quoted_key(self) -> Seq<u8> {
        seq![QUOTE] + self.key + seq![QUOTE]
    }

    /// The key as it reads; none if it is not a JSON string.
    pub open spec fn name(self) -> Option<Seq<char>> {
        crate::openai::json::json_string(self.quoted_key())
    }
}

impl Doc {
    /// Whether `content` can stand between quotes: no quote in it is bare, and
    /// no backslash is the last byte but for one that a backslash hides.
    pub open spec fn is_string_content(content: Seq<u8>) -> bool
        decreases content.len(),
    {
        if content.len() == 0 {
            true
        } else if content.first() == QUOTE {
            false
        } else if content.first() != BACKSLASH {
            Doc::is_string_content(content.drop_first())
        } else {
            content.len() > 1 && Doc::is_string_content(content.skip(2))
        }
    }

    /// Whether `bytes` is laid out as a number, `true`, `false` or `null`: it is
    /// not empty, no byte delimits it, and it does not start another token.
    pub open spec fn is_primitive(bytes: Seq<u8>) -> bool {
        &&& bytes.len() > 0
        &&& bytes.first() != OPEN_BRACE
        &&& bytes.first() != OPEN_BRACKET
        &&& bytes.first() != QUOTE
        &&& forall|i: int| 0 <= i < bytes.len() ==> !Scan::is_delimiter(#[trigger] bytes[i])
    }

    /// Whether the white space is white space, the strings are strings, and the
    /// primitives are primitives.
    pub open spec fn wf(self) -> bool
        decreases self,
    {
        match self {
            Doc::Primitive(bytes) => Doc::is_primitive(bytes),
            Doc::Text(content) => Doc::is_string_content(content),
            Doc::Array { items, blank } => {
                &&& crate::openai::bytes::is_blank(blank)
                &&& forall|i: int|
                    #![trigger items[i]]
                    0 <= i < items.len() ==> {
                        &&& crate::openai::bytes::is_blank(items[i].before)
                        &&& crate::openai::bytes::is_blank(items[i].after)
                        &&& items[i].doc.wf()
                    }
            },
            Doc::Object { members, blank } => {
                &&& crate::openai::bytes::is_blank(blank)
                &&& forall|i: int|
                    #![trigger members[i]]
                    0 <= i < members.len() ==> {
                        &&& crate::openai::bytes::is_blank(members[i].before)
                        &&& Doc::is_string_content(members[i].key)
                        &&& crate::openai::bytes::is_blank(members[i].gap)
                        &&& crate::openai::bytes::is_blank(members[i].slot.before)
                        &&& crate::openai::bytes::is_blank(members[i].slot.after)
                        &&& members[i].slot.doc.wf()
                    }
            },
        }
    }

    /// Whether at most `levels` values lie within each other.
    pub open spec fn fits(self, levels: nat) -> bool
        decreases self,
    {
        &&& levels > 0
        &&& match self {
            Doc::Primitive(_) => true,
            Doc::Text(_) => true,
            Doc::Array { items, blank } => forall|i: int|
                #![trigger items[i]]
                0 <= i < items.len() ==> items[i].doc.fits((levels - 1) as nat),
            Doc::Object { members, blank } => forall|i: int|
                #![trigger members[i]]
                0 <= i < members.len() ==> members[i].slot.doc.fits((levels - 1) as nat),
        }
    }

    /// Whether every key is a JSON string.
    pub open spec fn names_its_members(self) -> bool
        decreases self,
    {
        match self {
            Doc::Primitive(_) => true,
            Doc::Text(_) => true,
            Doc::Array { items, blank } => forall|i: int|
                #![trigger items[i]]
                0 <= i < items.len() ==> items[i].doc.names_its_members(),
            Doc::Object { members, blank } => forall|i: int|
                #![trigger members[i]]
                0 <= i < members.len() ==> members[i].name() is Some
                    && members[i].slot.doc.names_its_members(),
        }
    }

    /// Whether an object in the text, at whatever depth, has two members of the
    /// same name.
    pub open spec fn repeats_a_key(self) -> bool
        decreases self,
    {
        match self {
            Doc::Primitive(_) => false,
            Doc::Text(_) => false,
            Doc::Array { items, blank } => exists|i: int|
                #![trigger items[i]]
                0 <= i < items.len() && items[i].doc.repeats_a_key(),
            Doc::Object { members, blank } => {
                ||| exists|i: int, j: int|
                    #![trigger members[i], members[j]]
                    0 <= i < j < members.len() && members[i].name() == members[j].name()
                ||| exists|i: int|
                    #![trigger members[i]]
                    0 <= i < members.len() && members[i].slot.doc.repeats_a_key()
            },
        }
    }

    /// Whether `data` is the text with white space around it.
    pub open spec fn lies_in(self, data: Seq<u8>) -> bool {
        self.wf() && exists|before: Seq<u8>, after: Seq<u8>|
            crate::openai::bytes::is_blank(before) && crate::openai::bytes::is_blank(after) && data
                == #[trigger] (before + self.text() + after)
    }

    /// Whether `data` is a text that is nested deeper than the scan follows.
    pub open spec fn is_too_deep(data: Seq<u8>) -> bool {
        exists|doc: Doc|
            doc.wf() && !doc.fits((MAX_DEPTH + 1) as nat) && data == #[trigger] doc.text()
    }

    /// The text.
    pub open spec fn text(self) -> Seq<u8>
        decreases self,
    {
        match self {
            Doc::Primitive(bytes) => bytes,
            Doc::Text(content) => seq![QUOTE] + content + seq![QUOTE],
            Doc::Array { items, blank } => seq![OPEN_BRACKET] + if items.len() == 0 {
                blank + seq![CLOSE_BRACKET]
            } else {
                Doc::items_text(items)
            },
            Doc::Object { members, blank } => seq![OPEN_BRACE] + if members.len() == 0 {
                blank + seq![CLOSE_BRACE]
            } else {
                Doc::members_text(members)
            },
        }
    }

    /// The items of an array and its closing bracket.
    pub open spec fn items_text(items: Seq<Slot>) -> Seq<u8>
        decreases items,
    {
        if items.len() == 0 {
            Seq::empty()
        } else {
            items[0].before + (items[0].doc.text() + (items[0].after + if items.len() == 1 {
                seq![CLOSE_BRACKET]
            } else {
                seq![COMMA] + Doc::items_text(items.drop_first())
            }))
        }
    }

    /// The members of an object and its closing brace.
    pub open spec fn members_text(members: Seq<Entry>) -> Seq<u8>
        decreases members,
    {
        if members.len() == 0 {
            Seq::empty()
        } else {
            members[0].before + (members[0].quoted_key() + (members[0].gap + (seq![COLON] + (
            members[0].slot.before + (members[0].slot.doc.text() + (members[0].slot.after
                + if members.len() == 1 {
                seq![CLOSE_BRACE]
            } else {
                seq![COMMA] + Doc::members_text(members.drop_first())
            }))))))
        }
    }
}

/// Whether nothing, or a delimiter, starts `bytes`.
spec fn is_delimited(bytes: Seq<u8>) -> bool {
    bytes.len() == 0 || Scan::is_delimiter(bytes.first())
}

proof fn lemma_skip_blank(blank: Seq<u8>, bytes: Seq<u8>)
    requires
        crate::openai::bytes::is_blank(blank),
        bytes.len() > 0,
        !crate::openai::bytes::is_space(bytes.first()),
    ensures
        crate::openai::bytes::trim_start(blank + bytes) == bytes,
    decreases blank.len(),
{
    if blank.len() == 0 {
        assert(blank + bytes == bytes);
    } else {
        assert((blank + bytes).first() == blank[0]);
        assert((blank + bytes).drop_first() == blank.drop_first() + bytes);
        lemma_skip_blank(blank.drop_first(), bytes);
    }
}

proof fn lemma_after_primitive(bytes: Seq<u8>, suffix: Seq<u8>)
    requires
        forall|i: int| 0 <= i < bytes.len() ==> !Scan::is_delimiter(#[trigger] bytes[i]),
        is_delimited(suffix),
    ensures
        Scan::after_primitive(bytes + suffix) == suffix,
    decreases bytes.len(),
{
    if bytes.len() == 0 {
        assert(bytes + suffix == suffix);
    } else {
        assert((bytes + suffix).first() == bytes[0]);
        assert((bytes + suffix).drop_first() == bytes.drop_first() + suffix);
        lemma_after_primitive(bytes.drop_first(), suffix);
    }
}

proof fn lemma_after_string(content: Seq<u8>, suffix: Seq<u8>)
    requires
        Doc::is_string_content(content),
    ensures
        Scan::after_string(content + (seq![QUOTE] + suffix)) == Some(suffix),
    decreases content.len(),
{
    let rest = seq![QUOTE] + suffix;
    let bytes = content + rest;
    if content.len() == 0 {
        assert(bytes == rest);
        assert(bytes.drop_first() == suffix);
    } else if content.first() != BACKSLASH {
        assert(bytes.first() == content.first());
        assert(bytes.drop_first() == content.drop_first() + rest);
        lemma_after_string(content.drop_first(), suffix);
    } else {
        assert(bytes.first() == content.first());
        assert(bytes.skip(2) == content.skip(2) + rest);
        lemma_after_string(content.skip(2), suffix);
    }
}

/// A text starts with a byte that is neither white space nor a delimiter.
proof fn lemma_text_starts(doc: Doc)
    requires
        doc.wf(),
    ensures
        doc.text().len() > 0,
        !Scan::is_delimiter(doc.text().first()),
{
    if let Doc::Primitive(bytes) = doc {
        assert(!Scan::is_delimiter(bytes[0]));
    }
}

/// Whether `scan` stops at a repeated key if there is one, and else goes on to
/// `suffix`.
spec fn finds(scan: Scan, repeated: bool, suffix: Seq<u8>) -> bool {
    scan == if repeated {
        Scan::Duplicate
    } else {
        Scan::Rest(suffix)
    }
}

proof fn lemma_value(doc: Doc, levels: nat, before: Seq<u8>, suffix: Seq<u8>)
    requires
        doc.wf(),
        doc.fits(levels),
        doc.names_its_members(),
        crate::openai::bytes::is_blank(before),
        is_delimited(suffix),
    ensures
        finds(Scan::value(before + (doc.text() + suffix), levels), doc.repeats_a_key(), suffix),
    decreases doc, 0nat,
{
    let text = doc.text() + suffix;
    lemma_text_starts(doc);
    assert(text.first() == doc.text().first());
    lemma_skip_blank(before, text);
    match doc {
        Doc::Primitive(bytes) => {
            lemma_after_primitive(bytes, suffix);
        },
        Doc::Text(content) => {
            lemma_after_string(content, suffix);
            assert(text.drop_first() == content + (seq![QUOTE] + suffix));
        },
        Doc::Array { items, blank } => {
            if items.len() == 0 {
                let close = seq![CLOSE_BRACKET] + suffix;
                assert(text.drop_first() == blank + close);
                lemma_skip_blank(blank, close);
                assert(close.drop_first() == suffix);
            } else {
                let slot = items[0];
                let body = slot.doc.text() + (items_rest(items) + suffix);
                assert(text.drop_first() == slot.before + body);
                lemma_text_starts(slot.doc);
                assert(body.first() == slot.doc.text().first());
                lemma_skip_blank(slot.before, body);
                assert(decreases_to!(doc => items));
                lemma_items(items, (levels - 1) as nat, Seq::empty(), suffix);
                assert(Seq::<u8>::empty() + body == body);
            }
        },
        Doc::Object { members, blank } => {
            if members.len() == 0 {
                let close = seq![CLOSE_BRACE] + suffix;
                assert(text.drop_first() == blank + close);
                lemma_skip_blank(blank, close);
                assert(close.drop_first() == suffix);
            } else {
                let entry = members[0];
                let body = entry.quoted_key() + (members_rest(members) + suffix);
                assert(text.drop_first() == entry.before + body);
                assert(body.first() == QUOTE);
                lemma_skip_blank(entry.before, body);
                assert(decreases_to!(doc => members));
                lemma_members(members, (levels - 1) as nat, Set::empty(), Seq::empty(), suffix);
                lemma_repeats(members, Set::empty());
                assert(Seq::<u8>::empty() + body == body);
            }
        },
    }
}

/// What follows the first item.
spec fn items_rest(items: Seq<Slot>) -> Seq<u8> {
    items[0].after + if items.len() == 1 {
        seq![CLOSE_BRACKET]
    } else {
        seq![COMMA] + Doc::items_text(items.drop_first())
    }
}

proof fn lemma_items(items: Seq<Slot>, levels: nat, before: Seq<u8>, suffix: Seq<u8>)
    requires
        items.len() > 0,
        (Doc::Array { items, blank: Seq::empty() }).wf(),
        (Doc::Array { items, blank: Seq::empty() }).fits(levels + 1),
        (Doc::Array { items, blank: Seq::empty() }).names_its_members(),
        crate::openai::bytes::is_blank(before),
    ensures
        finds(
            Scan::items(before + (items[0].doc.text() + (items_rest(items) + suffix)), levels),
            (Doc::Array { items, blank: Seq::empty() }).repeats_a_key(),
            suffix,
        ),
    decreases items, 1nat,
{
    let slot = items[0];
    let doc = slot.doc;
    let tail = items_rest(items) + suffix;
    let bytes = before + (doc.text() + tail);
    let closing = if items.len() == 1 {
        seq![CLOSE_BRACKET] + suffix
    } else {
        seq![COMMA] + (Doc::items_text(items.drop_first()) + suffix)
    };
    assert(tail == slot.after + closing);
    if slot.after.len() > 0 {
        assert(tail.first() == slot.after[0]);
    } else {
        assert(tail == closing);
    }
    assert(decreases_to!(items => items[0]));
    lemma_value(doc, levels, before, tail);
    lemma_skip_blank(slot.after, closing);
    if items.len() == 1 {
        assert(closing.drop_first() == suffix);
    } else {
        let others = items.drop_first();
        let next = others[0];
        assert(others[0] == items[1]);
        assert forall|i: int| 0 <= i < others.len() implies #[trigger] others[i] == items[i + 1] by {}
        assert(closing.drop_first() == next.before + (next.doc.text() + (items_rest(others)
            + suffix)));
        lemma_items(others, levels, next.before, suffix);
        let whole = Doc::Array { items, blank: Seq::empty() };
        let part = Doc::Array { items: others, blank: Seq::empty() };
        if part.repeats_a_key() {
            let i = choose|i: int|
                #![trigger others[i]]
                0 <= i < others.len() && others[i].doc.repeats_a_key();
            assert(items[i + 1].doc.repeats_a_key());
        }
        if whole.repeats_a_key() && !doc.repeats_a_key() {
            let i = choose|i: int|
                #![trigger items[i]]
                0 <= i < items.len() && items[i].doc.repeats_a_key();
            assert(others[i - 1].doc.repeats_a_key());
        }
    }
}

/// What follows the first key.
spec fn members_rest(members: Seq<Entry>) -> Seq<u8> {
    let slot = members[0].slot;
    members[0].gap + (seq![COLON] + (slot.before + (slot.doc.text() + (slot.after
        + if members.len() == 1 {
        seq![CLOSE_BRACE]
    } else {
        seq![COMMA] + Doc::members_text(members.drop_first())
    }))))
}

/// Whether a member has a name in `seen` or that of an earlier member, or an
/// object in its value repeats a key.
spec fn repeats_within(members: Seq<Entry>, seen: Set<Seq<char>>) -> bool
    decreases members.len(),
{
    members.len() > 0 && {
        let name = members[0].name()->0;
        ||| seen.contains(name)
        ||| members[0].slot.doc.repeats_a_key()
        ||| repeats_within(members.drop_first(), seen.insert(name))
    }
}

proof fn lemma_repeats(members: Seq<Entry>, seen: Set<Seq<char>>)
    requires
        (Doc::Object { members, blank: Seq::empty() }).names_its_members(),
    ensures
        repeats_within(members, seen) <==> {
            ||| (Doc::Object { members, blank: Seq::empty() }).repeats_a_key()
            ||| exists|i: int|
                #![trigger members[i]]
                0 <= i < members.len() && seen.contains(members[i].name()->0)
        },
    decreases members.len(),
{
    let whole = Doc::Object { members, blank: Seq::empty() };
    if members.len() > 0 {
        let others = members.drop_first();
        let part = Doc::Object { members: others, blank: Seq::empty() };
        let name = members[0].name()->0;
        assert forall|i: int| 0 <= i < others.len() implies #[trigger] others[i] == members[i
            + 1] by {}
        lemma_repeats(others, seen.insert(name));
        if repeats_within(members, seen) {
            if part.repeats_a_key() {
                if exists|i: int, j: int|
                    #![trigger others[i], others[j]]
                    0 <= i < j < others.len() && others[i].name() == others[j].name() {
                    let (i, j) = choose|i: int, j: int|
                        #![trigger others[i], others[j]]
                        0 <= i < j < others.len() && others[i].name() == others[j].name();
                    assert(members[i + 1].name() == members[j + 1].name());
                } else {
                    let i = choose|i: int|
                        #![trigger others[i]]
                        0 <= i < others.len() && others[i].slot.doc.repeats_a_key();
                    assert(members[i + 1].slot.doc.repeats_a_key());
                }
            } else if exists|i: int|
                #![trigger others[i]]
                0 <= i < others.len() && seen.insert(name).contains(others[i].name()->0) {
                let i = choose|i: int|
                    #![trigger others[i]]
                    0 <= i < others.len() && seen.insert(name).contains(others[i].name()->0);
                assert(members[i + 1] == others[i]);
                if !seen.contains(others[i].name()->0) {
                    assert(members[0].name() == members[i + 1].name());
                    assert(whole.repeats_a_key());
                }
            } else if seen.contains(name) {
                assert(seen.contains(members[0].name()->0));
            } else {
                assert(members[0].slot.doc.repeats_a_key());
            }
        }
        if exists|i: int|
            #![trigger members[i]]
            0 <= i < members.len() && seen.contains(members[i].name()->0) {
            let i = choose|i: int|
                #![trigger members[i]]
                0 <= i < members.len() && seen.contains(members[i].name()->0);
            if i > 0 {
                assert(seen.insert(name).contains(others[i - 1].name()->0));
            }
        }
        if whole.repeats_a_key() {
            if exists|i: int, j: int|
                #![trigger members[i], members[j]]
                0 <= i < j < members.len() && members[i].name() == members[j].name() {
                let (i, j) = choose|i: int, j: int|
                    #![trigger members[i], members[j]]
                    0 <= i < j < members.len() && members[i].name() == members[j].name();
                assert(others[j - 1] == members[j]);
                if i == 0 {
                    assert(seen.insert(name).contains(others[j - 1].name()->0));
                } else {
                    assert(others[i - 1].name() == others[j - 1].name());
                    assert(part.repeats_a_key());
                }
            } else {
                let i = choose|i: int|
                    #![trigger members[i]]
                    0 <= i < members.len() && members[i].slot.doc.repeats_a_key();
                if i > 0 {
                    assert(others[i - 1].slot.doc.repeats_a_key());
                }
            }
        }
    }
}

proof fn lemma_members(
    members: Seq<Entry>,
    levels: nat,
    seen: Set<Seq<char>>,
    before: Seq<u8>,
    suffix: Seq<u8>,
)
    requires
        members.len() > 0,
        (Doc::Object { members, blank: Seq::empty() }).wf(),
        (Doc::Object { members, blank: Seq::empty() }).fits(levels + 1),
        (Doc::Object { members, blank: Seq::empty() }).names_its_members(),
        crate::openai::bytes::is_blank(before),
    ensures
        finds(
            Scan::members(
                before + (members[0].quoted_key() + (members_rest(members) + suffix)),
                levels,
                seen,
            ),
            repeats_within(members, seen),
            suffix,
        ),
    decreases members, 1nat,
{
    let entry = members[0];
    let slot = entry.slot;
    let closing = if members.len() == 1 {
        seq![CLOSE_BRACE] + suffix
    } else {
        seq![COMMA] + (Doc::members_text(members.drop_first()) + suffix)
    };
    let tail = slot.after + closing;
    let value = slot.before + (slot.doc.text() + tail);
    let colon = seq![COLON] + value;
    let after_key = entry.gap + colon;
    let text = entry.quoted_key() + after_key;
    let bytes = before + text;
    assert(members_rest(members) + suffix == after_key);
    assert(text.first() == QUOTE);
    lemma_skip_blank(before, text);
    assert(text.drop_first() == entry.key + (seq![QUOTE] + after_key));
    lemma_after_string(entry.key, after_key);
    assert(text.take(text.len() - after_key.len()) == entry.quoted_key());
    assert(entry.name() is Some);
    let name = entry.name()->0;
    lemma_skip_blank(entry.gap, colon);
    assert(colon.drop_first() == value);
    if slot.after.len() > 0 {
        assert(tail.first() == slot.after[0]);
    } else {
        assert(tail == closing);
    }
    assert(decreases_to!(members => members[0]));
    lemma_value(slot.doc, levels, slot.before, tail);
    lemma_skip_blank(slot.after, closing);
    if members.len() == 1 {
        assert(closing.drop_first() == suffix);
        assert(!repeats_within(members.drop_first(), seen.insert(name)));
    } else {
        let others = members.drop_first();
        let next = others[0];
        assert forall|i: int| 0 <= i < others.len() implies #[trigger] others[i] == members[i
            + 1] by {}
        assert(closing.drop_first() == next.before + (next.quoted_key() + (members_rest(others)
            + suffix)));
        lemma_members(others, levels, seen.insert(name), next.before, suffix);
    }
}

/// The scan finds exactly the repeated keys: of every JSON text that is nested
/// no deeper than the scan follows, it reports a duplicate if and only if an
/// object in the text has two members whose keys read the same, wherever the
/// object lies and however the keys are escaped.
pub proof fn scan_finds_exactly_the_repeated_keys(doc: Doc, data: Seq<u8>)
    requires
        doc.lies_in(data),
        doc.fits((MAX_DEPTH + 1) as nat),
        doc.names_its_members(),
    ensures
        Scan::document(data) is Duplicate <==> doc.repeats_a_key(),
{
    let (before, after) = choose|before: Seq<u8>, after: Seq<u8>|
        crate::openai::bytes::is_blank(before) && crate::openai::bytes::is_blank(after) && data
            == #[trigger] (before + doc.text() + after);
    if after.len() > 0 {
        assert(crate::openai::bytes::is_space(after[0]));
    }
    lemma_value(doc, (MAX_DEPTH + 1) as nat, before, after);
    assert(data == before + (doc.text() + after));
}

/// Trimming leaves the text.
pub(crate) proof fn lemma_trimmed(doc: Doc, data: Seq<u8>)
    requires
        doc.lies_in(data),
    ensures
        crate::openai::bytes::trimmed(data) == doc.text(),
        doc.text().len() > 0,
        doc.lies_in(doc.text()),
{
    let (before, after) = choose|before: Seq<u8>, after: Seq<u8>|
        crate::openai::bytes::is_blank(before) && crate::openai::bytes::is_blank(after) && data
            == #[trigger] (before + doc.text() + after);
    lemma_text_ends(doc);
    crate::openai::bytes::trimming_ignores_white_space(before, doc.text(), after);
    assert(doc.text() == Seq::<u8>::empty() + doc.text() + Seq::<u8>::empty());
}

/// A text neither starts nor ends with white space.
proof fn lemma_text_ends(doc: Doc)
    requires
        doc.wf(),
    ensures
        doc.text().len() > 0,
        !crate::openai::bytes::is_space(doc.text().first()),
        !crate::openai::bytes::is_space(doc.text().last()),
{
    lemma_text_starts(doc);
    match doc {
        Doc::Primitive(bytes) => {
            assert(!Scan::is_delimiter(bytes[bytes.len() - 1]));
        },
        Doc::Text(_) => {},
        Doc::Array { items, blank } => {
            if items.len() > 0 {
                lemma_items_text_ends(items);
            }
        },
        Doc::Object { members, blank } => {
            if members.len() > 0 {
                lemma_members_text_ends(members);
            }
        },
    }
}

proof fn lemma_items_text_ends(items: Seq<Slot>)
    requires
        items.len() > 0,
    ensures
        Doc::items_text(items).len() > 0,
        Doc::items_text(items).last() == CLOSE_BRACKET,
    decreases items.len(),
{
    if items.len() > 1 {
        lemma_items_text_ends(items.drop_first());
    }
}

proof fn lemma_members_text_ends(members: Seq<Entry>)
    requires
        members.len() > 0,
    ensures
        Doc::members_text(members).len() > 0,
        Doc::members_text(members).last() == CLOSE_BRACE,
    decreases members.len(),
{
    if members.len() > 1 {
        lemma_members_text_ends(members.drop_first());
    }
}

/// A text that repeats a key holds an object.
pub(crate) proof fn lemma_repeating_text_has_a_brace(doc: Doc)
    requires
        doc.repeats_a_key(),
    ensures
        doc.text().contains(OPEN_BRACE),
    decreases doc,
{
    match doc {
        Doc::Array { items, blank } => {
            let k = choose|i: int|
                #![trigger items[i]]
                0 <= i < items.len() && items[i].doc.repeats_a_key();
            assert(decreases_to!(doc => items));
            assert(decreases_to!(items => items[k]));
            lemma_repeating_text_has_a_brace(items[k].doc);
            lemma_items_text_contains(items, k, OPEN_BRACE);
            let at = Doc::items_text(items).index_of(OPEN_BRACE);
            assert(doc.text()[at + 1] == OPEN_BRACE);
        },
        Doc::Object { members, blank } => {
            assert(doc.text()[0] == OPEN_BRACE);
        },
        _ => {},
    }
}

proof fn lemma_items_text_contains(items: Seq<Slot>, k: int, byte: u8)
    requires
        0 <= k < items.len(),
        items[k].doc.text().contains(byte),
    ensures
        Doc::items_text(items).contains(byte),
    decreases items.len(),
{
    let text = Doc::items_text(items);
    let slot = items[0];
    if k == 0 {
        let at = slot.doc.text().index_of(byte);
        assert(text[slot.before.len() + at] == byte);
    } else {
        let others = items.drop_first();
        assert(others[k - 1] == items[k]);
        lemma_items_text_contains(others, k - 1, byte);
        let at = Doc::items_text(others).index_of(byte);
        assert(text[slot.before.len() + slot.doc.text().len() + slot.after.len() + 1 + at]
            == byte);
    }
}

} // verus!
