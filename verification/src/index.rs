//! The index artifact: a JSON object mapping each source id to the ordered
//! list of its stored object keys. The scheduled run encodes it once and
//! stores it under the well-known key; the read endpoint serves the stored
//! bytes verbatim. The encoding is produced here, character by character,
//! against an exact specification of the JSON text.

use vstd::prelude::*;
use vstd::string::StrSliceExecFns;
use crate::digest::hex_digit;
use crate::digest::hex_digit_char;

verus! {

/// One source's row in the index: its id and the keys of its stored
/// objects, already in the order the index is to present.
pub struct IndexEntry {
    /// The source this row belongs to.
    pub source_id: String,
    /// The source's stored object keys, in presentation order.
    pub keys: Vec<String>,
}

/// The JSON escape of one character: quote and backslash escaped, control
/// characters in `\u00XX` form, every other character itself.
pub open spec fn json_escaped_char(c: char) -> Seq<char> {
    if c == '"' {
        seq!['\\', '"']
    } else if c == '\\' {
        seq!['\\', '\\']
    } else if (c as u32) < 32 {
        seq![
            '\\',
            'u',
            '0',
            '0',
            hex_digit_char(((c as u32) / 16) as u8),
            hex_digit_char(((c as u32) % 16) as u8),
        ]
    } else {
        seq![c]
    }
}

/// The JSON escape of a whole string's characters, in order.
pub open spec fn json_escaped(s: Seq<char>) -> Seq<char>
    decreases s.len(),
{
    if s.len() == 0 {
        Seq::empty()
    } else {
        json_escaped_char(s[0]) + json_escaped(s.drop_first())
    }
}

/// A JSON string literal: quote, escaped content, quote.
pub open spec fn json_string_of(s: Seq<char>) -> Seq<char> {
    seq!['"'] + json_escaped(s) + seq!['"']
}

/// The comma-separated items of a JSON array of strings.
pub open spec fn json_array_items(keys: Seq<Seq<char>>) -> Seq<char>
    decreases keys.len(),
{
    if keys.len() == 0 {
        Seq::empty()
    } else if keys.len() == 1 {
        json_string_of(keys[0])
    } else {
        json_array_items(keys.drop_last()) + seq![','] + json_string_of(keys.last())
    }
}

/// A JSON array of strings.
pub open spec fn json_array_of(keys: Seq<Seq<char>>) -> Seq<char> {
    seq!['['] + json_array_items(keys) + seq![']']
}

/// The views of a vector of keys.
pub open spec fn key_views(keys: Seq<String>) -> Seq<Seq<char>> {
    keys.map_values(|k: String| k@)
}

/// One index row as JSON: the quoted id, a colon, the array of its keys.
pub open spec fn entry_json_of(e: IndexEntry) -> Seq<char> {
    json_string_of(e.source_id@) + seq![':'] + json_array_of(key_views(e.keys@))
}

/// The comma-separated members of the index object.
pub open spec fn json_index_items(entries: Seq<IndexEntry>) -> Seq<char>
    decreases entries.len(),
{
    if entries.len() == 0 {
        Seq::empty()
    } else if entries.len() == 1 {
        entry_json_of(entries[0])
    } else {
        json_index_items(entries.drop_last()) + seq![','] + entry_json_of(entries.last())
    }
}

/// The whole index as JSON text: an object with one member per entry, in
/// entry order. An empty index encodes to an empty — but valid — object.
pub open spec fn json_index_of(entries: Seq<IndexEntry>) -> Seq<char> {
    seq!['{'] + json_index_items(entries) + seq!['}']
}

/// Escaping distributes over appending one character.
proof fn lemma_json_escaped_snoc(s: Seq<char>, c: char)
    ensures
        json_escaped(s.push(c)) == json_escaped(s) + json_escaped_char(c),
    decreases s.len(),
{
    if s.len() == 0 {
        assert(s.push(c) =~= seq![c]);
        assert(s.push(c).drop_first() =~= Seq::<char>::empty());
        assert(s.push(c)[0] == c);
        assert(json_escaped(s.push(c)) == json_escaped_char(c) + json_escaped(
            Seq::<char>::empty(),
        ));
        assert(json_escaped(s.push(c)) =~= json_escaped(s) + json_escaped_char(c));
    } else {
        lemma_json_escaped_snoc(s.drop_first(), c);
        assert(s.push(c).drop_first() =~= s.drop_first().push(c));
        assert(s.push(c)[0] == s[0]);
        assert(json_escaped(s.push(c)) =~= json_escaped(s) + json_escaped_char(c));
    }
}

/// Append the JSON escape of one character.
fn push_json_escaped_char(out: &mut String, c: char)
    ensures
        final (out)@ == old(out)@ + json_escaped_char(c),
{
    if c == '"' {
        out.push('\\');
        out.push('"');
        proof {
            assert(out@ =~= old(out)@ + json_escaped_char(c));
        }
    } else if c == '\\' {
        out.push('\\');
        out.push('\\');
        proof {
            assert(out@ =~= old(out)@ + json_escaped_char(c));
        }
    } else {
        let u = c as u32;
        if u < 32 {
            out.push('\\');
            out.push('u');
            out.push('0');
            out.push('0');
            out.push(hex_digit((u / 16) as u8));
            out.push(hex_digit((u % 16) as u8));
            proof {
                assert(out@ =~= old(out)@ + json_escaped_char(c));
            }
        } else {
            out.push(c);
            proof {
                assert(out@ =~= old(out)@ + json_escaped_char(c));
            }
        }
    }
}

/// Append a JSON string literal: the quoted, escaped text.
fn append_json_string(out: &mut String, s: &str)
    ensures
        final (out)@ == old(out)@ + json_string_of(s@),
{
    out.push('"');
    let n = s.unicode_len();
    let mut i: usize = 0;
    proof {
        assert(s@.take(0) =~= Seq::<char>::empty());
        assert(out@ =~= old(out)@ + seq!['"'] + json_escaped(s@.take(0)));
    }
    while i < n
        invariant
            n == s@.len(),
            i <= n,
            out@ == old(out)@ + seq!['"'] + json_escaped(s@.take(i as int)),
        decreases n - i,
    {
        let c = s.get_char(i);
        proof {
            lemma_json_escaped_snoc(s@.take(i as int), c);
            assert(s@.take(i as int + 1) =~= s@.take(i as int).push(c));
        }
        push_json_escaped_char(out, c);
        proof {
            assert(out@ =~= old(out)@ + seq!['"'] + json_escaped(s@.take(i as int + 1)));
        }
        i = i + 1;
    }
    out.push('"');
    proof {
        assert(s@.take(n as int) =~= s@);
        assert(out@ =~= old(out)@ + json_string_of(s@));
    }
}

/// Append the JSON array of one source's keys.
fn append_json_array(out: &mut String, keys: &Vec<String>)
    ensures
        final (out)@ == old(out)@ + json_array_of(key_views(keys@)),
{
    out.push('[');
    let mut i: usize = 0;
    proof {
        assert(key_views(keys@).take(0) =~= Seq::<Seq<char>>::empty());
        assert(out@ =~= old(out)@ + seq!['['] + json_array_items(key_views(keys@).take(0)));
    }
    while i < keys.len()
        invariant
            i <= keys@.len(),
            out@ == old(out)@ + seq!['['] + json_array_items(key_views(keys@).take(i as int)),
        decreases keys@.len() - i,
    {
        if i > 0 {
            out.push(',');
        }
        append_json_string(out, keys[i].as_str());
        proof {
            let kv = key_views(keys@);
            assert(kv.take(i as int + 1).drop_last() =~= kv.take(i as int));
            assert(kv.take(i as int + 1).last() == kv[i as int]);
            assert(kv[i as int] == keys@[i as int]@);
            assert(out@ =~= old(out)@ + seq!['['] + json_array_items(kv.take(i as int + 1)));
        }
        i = i + 1;
    }
    out.push(']');
    proof {
        assert(key_views(keys@).take(keys@.len() as int) =~= key_views(keys@));
        assert(out@ =~= old(out)@ + json_array_of(key_views(keys@)));
    }
}

/// Encode the whole index as its JSON text. This is the exact byte-for-byte
/// content of the precomputed artifact (the text is pure ASCII punctuation
/// around the escaped ids and keys).
pub fn encode_index(entries: &Vec<IndexEntry>) -> (r: String)
    ensures
        r@ == json_index_of(entries@),
{
    let mut out = String::new();
    out.push('{');
    let mut i: usize = 0;
    proof {
        assert(entries@.take(0) =~= Seq::<IndexEntry>::empty());
        assert(out@ =~= seq!['{'] + json_index_items(entries@.take(0)));
    }
    while i < entries.len()
        invariant
            i <= entries@.len(),
            out@ == seq!['{'] + json_index_items(entries@.take(i as int)),
        decreases entries@.len() - i,
    {
        if i > 0 {
            out.push(',');
        }
        let e = &entries[i];
        append_json_string(&mut out, e.source_id.as_str());
        out.push(':');
        append_json_array(&mut out, &e.keys);
        proof {
            assert(entries@.take(i as int + 1).drop_last() =~= entries@.take(i as int));
            assert(entries@.take(i as int + 1).last() == entries@[i as int]);
            assert(out@ =~= seq!['{'] + json_index_items(entries@.take(i as int + 1)));
        }
        i = i + 1;
    }
    out.push('}');
    proof {
        assert(entries@.take(entries@.len() as int) =~= entries@);
        assert(out@ =~= json_index_of(entries@));
    }
    out
}

} // verus!
