//! Manifest text handling: newline-delimited `key: value` lines, split on
//! the first colon with both sides trimmed; lines without a colon are
//! ignored; on repeated keys the last line wins. From the resulting mapping
//! a product record is extracted: the title prefers `Implementation-Title`
//! over `Bundle-Name`, and the version is `Implementation-Version` or the
//! sentinel `no version`.

use vstd::prelude::*;
use crate::text::{find_char, split_on, split_str, strs_view, trim_spec, trim_str};

verus! {

/// `line` split at the first occurrence of `sep`: the part before it and
/// the part after it, or nothing when `sep` does not occur.
pub open spec fn split_first(line: Seq<char>, sep: char) -> Option<(Seq<char>, Seq<char>)>
    decreases line.len(),
{
    if line.len() == 0 {
        None
    } else if line[0] == sep {
        Some((Seq::<char>::empty(), line.drop_first()))
    } else {
        match split_first(line.drop_first(), sep) {
            None => None,
            Some(kv) => Some((seq![line[0]] + kv.0, kv.1)),
        }
    }
}

/// When `sep` first occurs at `i`, splitting cuts exactly there.
pub proof fn lemma_split_first_found(line: Seq<char>, sep: char, i: int)
    requires
        0 <= i < line.len(),
        line[i] == sep,
        forall|k: int| 0 <= k < i ==> line[k] != sep,
    ensures
        split_first(line, sep) == Some(
            (line.subrange(0, i), line.subrange(i + 1, line.len() as int)),
        ),
    decreases line.len(),
{
    if i == 0 {
        assert(line.subrange(0, 0) =~= Seq::<char>::empty());
        assert(line.drop_first() =~= line.subrange(1, line.len() as int));
    } else {
        let t = line.drop_first();
        assert(forall|k: int| 0 <= k < i - 1 ==> t[k] != sep);
        lemma_split_first_found(t, sep, i - 1);
        assert(t.subrange(0, i - 1) =~= line.subrange(1, i));
        assert(t.subrange(i, t.len() as int) =~= line.subrange(i + 1, line.len() as int));
        assert(seq![line[0]] + line.subrange(1, i) =~= line.subrange(0, i));
    }
}

/// When `sep` does not occur, there is nothing to split.
pub proof fn lemma_split_first_absent(line: Seq<char>, sep: char)
    requires
        forall|k: int| 0 <= k < line.len() ==> line[k] != sep,
    ensures
        split_first(line, sep) is None,
    decreases line.len(),
{
    if line.len() > 0 {
        lemma_split_first_absent(line.drop_first(), sep);
    }
}

/// One manifest line as a key/value pair: split on the first colon, both
/// sides trimmed; a line without a colon carries nothing.
pub open spec fn parse_line(line: Seq<char>) -> Option<(Seq<char>, Seq<char>)> {
    match split_first(line, ':') {
        None => None,
        Some(kv) => Some((trim_spec(kv.0), trim_spec(kv.1))),
    }
}

/// The key/value pairs of the given lines, in line order, colon-free lines
/// left out.
pub open spec fn entries_of_lines(lines: Seq<Seq<char>>) -> Seq<(Seq<char>, Seq<char>)>
    decreases lines.len(),
{
    if lines.len() == 0 {
        Seq::<(Seq<char>, Seq<char>)>::empty()
    } else {
        let rest = entries_of_lines(lines.drop_first());
        match parse_line(lines[0]) {
            None => rest,
            Some(kv) => seq![kv] + rest,
        }
    }
}

/// The key/value pairs of a whole manifest text, in line order.
pub open spec fn manifest_entries(text: Seq<char>) -> Seq<(Seq<char>, Seq<char>)> {
    entries_of_lines(split_on(text, '\n'))
}

/// The value under `key`, the last occurrence winning, as repeated manifest
/// keys overwrite earlier ones.
pub open spec fn lookup(entries: Seq<(Seq<char>, Seq<char>)>, key: Seq<char>) -> Option<Seq<char>>
    decreases entries.len(),
{
    if entries.len() == 0 {
        None
    } else if entries.last().0 == key {
        Some(entries.last().1)
    } else {
        lookup(entries.drop_last(), key)
    }
}

/// The product title of a manifest: `Implementation-Title` if present,
/// `Bundle-Name` as the fallback.
pub open spec fn title_of_entries(entries: Seq<(Seq<char>, Seq<char>)>) -> Option<Seq<char>> {
    match lookup(entries, "Implementation-Title"@) {
        Some(t) => Some(t),
        None => lookup(entries, "Bundle-Name"@),
    }
}

/// The (title, version) record of parsed entries: nothing without a title;
/// with one, the version is `Implementation-Version` or the sentinel.
pub open spec fn record_of_entries(entries: Seq<(Seq<char>, Seq<char>)>) -> Option<
    (Seq<char>, Seq<char>),
> {
    match title_of_entries(entries) {
        None => None,
        Some(t) => Some(
            (
                t,
                match lookup(entries, "Implementation-Version"@) {
                    Some(v) => v,
                    None => "no version"@,
                },
            ),
        ),
    }
}

/// What a manifest text yields: its record, if it names a product at all.
pub open spec fn manifest_record(text: Seq<char>) -> Option<(Seq<char>, Seq<char>)> {
    record_of_entries(manifest_entries(text))
}

/// The views of a vector of owned key/value pairs.
pub open spec fn pairs_view(v: Seq<(String, String)>) -> Seq<(Seq<char>, Seq<char>)> {
    v.map_values(|p: (String, String)| (p.0@, p.1@))
}

/// Parse one manifest line.
pub fn parse_line_str(line: &str) -> (r: Option<(String, String)>)
    ensures
        match r {
            Some(kv) => parse_line(line@) == Some((kv.0@, kv.1@)),
            None => parse_line(line@) is None,
        },
{
    let n = line.unicode_len();
    match find_char(line, ':', 0) {
        None => {
            proof {
                lemma_split_first_absent(line@, ':');
            }
            None
        },
        Some(i) => {
            proof {
                lemma_split_first_found(line@, ':', i as int);
            }
            let k = trim_str(line.substring_char(0, i));
            let v = trim_str(line.substring_char(i + 1, n));
            Some((k.to_owned(), v.to_owned()))
        },
    }
}

/// Parse a whole manifest text into its key/value pairs, in line order.
pub fn parse_manifest(text: &str) -> (entries: Vec<(String, String)>)
    ensures
        pairs_view(entries@) == manifest_entries(text@),
{
    let lines = split_str(text, '\n');
    let mut entries: Vec<(String, String)> = Vec::new();
    let n = lines.len();
    let mut i: usize = 0;
    proof {
        assert(strs_view(lines@).skip(0) =~= strs_view(lines@));
        assert(pairs_view(entries@) + entries_of_lines(strs_view(lines@)) =~= entries_of_lines(
            strs_view(lines@),
        ));
    }
    while i < n
        invariant
            n == lines@.len(),
            i <= n,
            strs_view(lines@) == split_on(text@, '\n'),
            manifest_entries(text@) =~= pairs_view(entries@) + entries_of_lines(
                strs_view(lines@).skip(i as int),
            ),
        decreases n - i,
    {
        let ghost pre = entries@;
        let ghost rest = strs_view(lines@).skip(i as int);
        proof {
            assert(rest[0] == lines@[i as int]@);
            assert(rest.drop_first() =~= strs_view(lines@).skip(i + 1));
        }
        match parse_line_str(lines[i].as_str()) {
            None => {
                proof {
                    assert(entries_of_lines(rest) == entries_of_lines(
                        strs_view(lines@).skip(i + 1),
                    ));
                }
            },
            Some(kv) => {
                let ghost gkv = kv;
                entries.push(kv);
                proof {
                    assert(pairs_view(entries@) =~= pairs_view(pre) + seq![(gkv.0@, gkv.1@)]);
                    assert(entries_of_lines(rest) == seq![(gkv.0@, gkv.1@)] + entries_of_lines(
                        strs_view(lines@).skip(i + 1),
                    ));
                    assert(pairs_view(pre) + (seq![(gkv.0@, gkv.1@)] + entries_of_lines(
                        strs_view(lines@).skip(i + 1),
                    )) =~= pairs_view(entries@) + entries_of_lines(strs_view(lines@).skip(i + 1)));
                }
            },
        }
        i += 1;
    }
    proof {
        assert(strs_view(lines@).skip(n as int) =~= Seq::<Seq<char>>::empty());
        assert(pairs_view(entries@) =~= manifest_entries(text@));
    }
    entries
}

/// Look a key up among parsed pairs, the last occurrence winning.
pub fn lookup_entry(entries: &Vec<(String, String)>, key: &String) -> (r: Option<String>)
    ensures
        match r {
            Some(v) => lookup(pairs_view(entries@), key@) == Some(v@),
            None => lookup(pairs_view(entries@), key@) is None,
        },
{
    let mut i = entries.len();
    proof {
        assert(pairs_view(entries@).subrange(0, i as int) =~= pairs_view(entries@));
    }
    while i > 0
        invariant
            i <= entries@.len(),
            lookup(pairs_view(entries@), key@) == lookup(
                pairs_view(entries@).subrange(0, i as int),
                key@,
            ),
        decreases i,
    {
        i = i - 1;
        let p = &entries[i];
        proof {
            let s = pairs_view(entries@).subrange(0, i + 1);
            assert(s.last() == (entries@[i as int].0@, entries@[i as int].1@));
            assert(s.drop_last() =~= pairs_view(entries@).subrange(0, i as int));
        }
        if p.0 == *key {
            return Some(p.1.clone());
        }
    }
    proof {
        assert(pairs_view(entries@).subrange(0, 0) =~= Seq::<(Seq<char>, Seq<char>)>::empty());
    }
    None
}

/// Extract the product record from parsed pairs.
pub fn extract_record(entries: &Vec<(String, String)>) -> (r: Option<(String, String)>)
    ensures
        match r {
            Some(kv) => record_of_entries(pairs_view(entries@)) == Some((kv.0@, kv.1@)),
            None => record_of_entries(pairs_view(entries@)) is None,
        },
{
    let impl_title = String::from_str("Implementation-Title");
    let bundle_name = String::from_str("Bundle-Name");
    let impl_version = String::from_str("Implementation-Version");
    let title = match lookup_entry(entries, &impl_title) {
        Some(t) => Some(t),
        None => lookup_entry(entries, &bundle_name),
    };
    match title {
        None => None,
        Some(t) => {
            let version = match lookup_entry(entries, &impl_version) {
                Some(v) => v,
                None => String::from_str("no version"),
            };
            Some((t, version))
        },
    }
}

/// The whole worker step on one manifest text: its product record, if any.
pub fn analyze_manifest_text(text: &str) -> (r: Option<(String, String)>)
    ensures
        match r {
            Some(kv) => manifest_record(text@) == Some((kv.0@, kv.1@)),
            None => manifest_record(text@) is None,
        },
{
    let entries = parse_manifest(text);
    extract_record(&entries)
}

/// Extraction is a function of the manifest content alone: parsing the same
/// text twice yields the same record.
pub proof fn lemma_extraction_deterministic(t1: Seq<char>, t2: Seq<char>)
    requires
        t1 == t2,
    ensures
        manifest_record(t1) == manifest_record(t2),
{
}

/// When a manifest holds `Implementation-Title`, that key decides the
/// title, whatever `Bundle-Name` says.
pub proof fn lemma_title_precedence(text: Seq<char>)
    requires
        lookup(manifest_entries(text), "Implementation-Title"@) is Some,
    ensures
        manifest_record(text) is Some,
        match (manifest_record(text), lookup(manifest_entries(text), "Implementation-Title"@)) {
            (Some(kv), Some(t)) => kv.0 == t,
            _ => false,
        },
{
}

} // verus!
