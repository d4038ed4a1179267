use vstd::prelude::*;

verus! {

// ------------------------------------------------------------ source map

/// Index of the first `;` in `line` at or after `j`, or -1.
pub open spec fn first_semicolon_from(line: Seq<char>, j: int) -> int
    decreases line.len() - j,
{
    if j < 0 || j >= line.len() {
        -1
    } else if line[j] == ';' {
        j
    } else {
        first_semicolon_from(line, j + 1)
    }
}

/// The entry a line of a source map holds: the text before its first `;`
/// and the text after it. A line without `;` holds none.
pub open spec fn line_entry(line: Seq<char>) -> Seq<(Seq<char>, Seq<char>)> {
    let k = first_semicolon_from(line, 0);
    if k < 0 {
        seq![]
    } else {
        seq![(line.subrange(0, k), line.subrange(k + 1, line.len() as int))]
    }
}

/// A line ended by `\n` loses a `\r` before it.
pub open spec fn strip_cr(line: Seq<char>) -> Seq<char> {
    if line.len() > 0 && line.last() == '\r' {
        line.drop_last()
    } else {
        line
    }
}

/// The entries of the lines of `s` from `start` on, where `s[start..i]` holds
/// no line break. An empty text after the last `\n` is no line.
pub open spec fn entries_from(s: Seq<char>, start: int, i: int) -> Seq<(Seq<char>, Seq<char>)>
    decreases s.len() - i,
{
    if i < start || start < 0 {
        seq![]
    } else if i >= s.len() {
        if i == start {
            seq![]
        } else {
            line_entry(s.subrange(start, s.len() as int))
        }
    } else if s[i] == '\n' {
        line_entry(strip_cr(s.subrange(start, i))) + entries_from(s, i + 1, i + 1)
    } else {
        entries_from(s, start, i + 1)
    }
}

/// The entries of a source map, one `path;fingerprinted-path` pair per line,
/// in the order of the lines.
pub open spec fn source_map_entries(s: Seq<char>) -> Seq<(Seq<char>, Seq<char>)> {
    entries_from(s, 0, 0)
}

/// The value of the last entry for `key`: a later line overrides an earlier one.
pub open spec fn last_value(entries: Seq<(Seq<char>, Seq<char>)>, key: Seq<char>) -> Option<
    Seq<char>,
>
    decreases entries.len(),
{
    if entries.len() == 0 {
        None
    } else if entries.last().0 == key {
        Some(entries.last().1)
    } else {
        last_value(entries.drop_last(), key)
    }
}

/// Maps each asset's path to the path of its fingerprinted copy.
pub struct AssetMap {
    entries: Vec<(String, String)>,
}

impl View for AssetMap {
    type V = Seq<(Seq<char>, Seq<char>)>;

    closed spec fn view(&self) -> Seq<(Seq<char>, Seq<char>)> {
        self.entries@.map_values(|e: (String, String)| (e.0@, e.1@))
    }
}

fn split_line(line: &str) -> (r: Option<(String, String)>)
    ensures
        match r {
            Some(e) => line_entry(line@) == seq![(e.0@, e.1@)],
            None => line_entry(line@) == Seq::<(Seq<char>, Seq<char>)>::empty(),
        },
{
    let len = line.unicode_len();
    let mut j: usize = 0;
    while j < len
        invariant
            len == line@.len(),
            j <= len,
            first_semicolon_from(line@, 0) == first_semicolon_from(line@, j as int),
        decreases len - j,
    {
        if line.get_char(j) == ';' {
            let key = line.substring_char(0, j).to_owned();
            let value = line.substring_char(j + 1, len).to_owned();
            return Some((key, value));
        }
        j = j + 1;
    }
    None
}

fn push_entry(entries: &mut Vec<(String, String)>, line: &str)
    ensures
        final(entries)@.map_values(|e: (String, String)| (e.0@, e.1@)) == old(entries)@.map_values(
            |e: (String, String)| (e.0@, e.1@),
        ) + line_entry(line@),
{
    let ghost before = entries@;
    match split_line(line) {
        Some(e) => {
            entries.push(e);
            assert(entries@.map_values(|e: (String, String)| (e.0@, e.1@)) =~= before.map_values(
                |e: (String, String)| (e.0@, e.1@),
            ) + line_entry(line@));
        },
        None => {
            assert(before.map_values(|e: (String, String)| (e.0@, e.1@)) + line_entry(line@)
                =~= before.map_values(|e: (String, String)| (e.0@, e.1@)));
        },
    }
}

/// Reads a source map: one `path;fingerprinted-path` pair per line.
pub fn create_assets_map(content: &str) -> (r: AssetMap)
    ensures
        r@ == source_map_entries(content@),
{
    let ghost s = content@;
    let len = content.unicode_len();
    let mut entries: Vec<(String, String)> = Vec::new();
    let mut start: usize = 0;
    let mut i: usize = 0;
    while i < len
        invariant
            s == content@,
            len == s.len(),
            start <= i <= len,
            entries@.map_values(|e: (String, String)| (e.0@, e.1@)) + entries_from(
                s,
                start as int,
                i as int,
            ) == source_map_entries(s),
        decreases len - i,
    {
        if content.get_char(i) == '\n' {
            let mut end = i;
            if end > start && content.get_char(end - 1) == '\r' {
                end = end - 1;
            }
            let line = content.substring_char(start, end);
            assert(line@ == strip_cr(s.subrange(start as int, i as int)));
            let ghost done = entries@.map_values(|e: (String, String)| (e.0@, e.1@));
            push_entry(&mut entries, line);
            assert(done + entries_from(s, start as int, i as int) == done + (line_entry(line@)
                + entries_from(s, i + 1, i + 1)));
            assert(done + (line_entry(line@) + entries_from(s, i + 1, i + 1)) =~= (done
                + line_entry(line@)) + entries_from(s, i + 1, i + 1));
            start = i + 1;
        }
        i = i + 1;
    }
    if start < len {
        let line = content.substring_char(start, len);
        let ghost done = entries@.map_values(|e: (String, String)| (e.0@, e.1@));
        push_entry(&mut entries, line);
    } else {
        assert(entries@.map_values(|e: (String, String)| (e.0@, e.1@)) + entries_from(
            s,
            start as int,
            i as int,
        ) =~= entries@.map_values(|e: (String, String)| (e.0@, e.1@)));
    }
    AssetMap { entries }
}

/// No entry for the asset asked for.
#[derive(Debug)]
pub struct AssetNotFound {
    pub asset: String,
}

/// The fingerprinted path of `asset`.
pub fn get_asset_path<'a>(map: &'a AssetMap, asset: &str) -> (r: Result<&'a str, AssetNotFound>)
    ensures
        match r {
            Ok(p) => last_value(map@, asset@) == Some(p@),
            Err(e) => last_value(map@, asset@) is None && e.asset@ == asset@,
        },
{
    let wanted = asset.to_owned();
    let mut i: usize = map.entries.len();
    assert(map@.subrange(0, i as int) =~= map@);
    while i > 0
        invariant
            i <= map.entries@.len(),
            map@.len() == map.entries@.len(),
            wanted@ == asset@,
            last_value(map@, asset@) == last_value(map@.subrange(0, i as int), asset@),
        decreases i,
    {
        let ghost prefix = map@.subrange(0, i as int);
        assert(prefix.drop_last() =~= map@.subrange(0, i - 1));
        if map.entries[i - 1].0 == wanted {
            return Ok(map.entries[i - 1].1.as_str());
        }
        i = i - 1;
    }
    Err(AssetNotFound { asset: wanted })
}

// ------------------------------------------------------------ fingerprints

pub open spec fn no_dot_between(s: Seq<char>, lo: int, hi: int) -> bool {
    forall|k: int| lo <= k < hi ==> #[trigger] s[k] != '.'
}

/// `s` is `name.etag.extension`, split at the dots `i` and `j`, with all
/// three parts non-empty and free of dots.
pub open spec fn etag_split(s: Seq<char>, i: int, j: int) -> bool {
    &&& 0 < i
    &&& i + 1 < j
    &&& j + 1 < s.len()
    &&& s[i] == '.'
    &&& s[j] == '.'
    &&& no_dot_between(s, 0, i)
    &&& no_dot_between(s, i + 1, j)
    &&& no_dot_between(s, j + 1, s.len() as int)
}

/// The fingerprint in an asset path of the form `name.etag.extension`.
pub open spec fn etag_of(s: Seq<char>) -> Option<Seq<char>> {
    if exists|i: int, j: int| etag_split(s, i, j) {
        let (i, j) = choose|i: int, j: int| etag_split(s, i, j);
        Some(s.subrange(i + 1, j))
    } else {
        None
    }
}

proof fn lemma_etag_split_unique(s: Seq<char>, i: int, j: int, a: int, b: int)
    requires
        etag_split(s, i, j),
        etag_split(s, a, b),
    ensures
        i == a && j == b,
{
    if i < a {
        assert(s[i] != '.');
    } else if a < i {
        assert(s[a] != '.');
    }
    if j < b {
        assert(s[j] != '.');
    } else if b < j {
        assert(s[b] != '.');
    }
}

/// The fingerprint that the name of a fingerprinted asset carries, as in
/// `/main.1a2b3c.css`; `None` for any other name.
pub fn extract_etag(asset: &str) -> (r: Option<String>)
    ensures
        match r {
            Some(e) => etag_of(asset@) == Some(e@),
            None => etag_of(asset@) is None,
        },
{
    let ghost s = asset@;
    let len = asset.unicode_len();
    let mut first: usize = 0;
    let mut second: usize = 0;
    let mut dots: usize = 0;
    let mut k: usize = 0;
    while k < len
        invariant
            s == asset@,
            len == s.len(),
            k <= len,
            dots <= 2,
            dots == 0 ==> no_dot_between(s, 0, k as int),
            dots >= 1 ==> first < k && s[first as int] == '.' && no_dot_between(s, 0, first as int),
            dots == 1 ==> no_dot_between(s, first + 1, k as int),
            dots == 2 ==> first < second < k && s[second as int] == '.' && no_dot_between(
                s,
                first + 1,
                second as int,
            ) && no_dot_between(s, second + 1, k as int),
        decreases len - k,
    {
        if asset.get_char(k) == '.' {
            if dots == 0 {
                first = k;
            } else if dots == 1 {
                second = k;
            } else {
                assert forall|i: int, j: int| !etag_split(s, i, j) by {
                    if etag_split(s, i, j) {
                        if i != first as int {
                            assert(s[i] == '.');
                        }
                        if first as int == i && j != second as int {
                            assert(s[j] == '.');
                        }
                        assert(s[k as int] == '.');
                    }
                }
                return None;
            }
            dots = dots + 1;
        }
        k = k + 1;
    }
    if dots == 2 && first > 0 && first + 1 < second && second + 1 < len {
        assert(etag_split(s, first as int, second as int));
        proof {
            let (i, j) = choose|i: int, j: int| etag_split(s, i, j);
            lemma_etag_split_unique(s, i, j, first as int, second as int);
        }
        Some(asset.substring_char(first + 1, second).to_owned())
    } else {
        assert forall|i: int, j: int| !etag_split(s, i, j) by {
            if etag_split(s, i, j) {
                if dots < 2 {
                    if dots == 1 && i != first as int {
                        assert(s[i] == '.');
                    }
                    assert(s[j] == '.');
                    assert(s[i] == '.');
                } else {
                    lemma_etag_split_unique(s, i, j, i, j);
                    if i != first as int {
                        assert(s[i] == '.');
                        assert(s[first as int] == '.');
                    }
                    if j != second as int {
                        assert(s[j] == '.');
                        assert(s[second as int] == '.');
                    }
                }
            }
        }
        None
    }
}

} // verus!
