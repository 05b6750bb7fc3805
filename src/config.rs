use vstd::prelude::*;
use vstd::string::*;

verus! {

/// The uppercase mapping of one character, which may be several characters long.
pub uninterp spec fn upper_of(c: char) -> Seq<char>;

/// Relies on std's `char::to_uppercase`: the uppercase mapping of `c`, which
/// depends on the character alone.
#[verifier::external_body]
fn uppercase_char(c: char) -> (r: String)
    ensures
        r@ == upper_of(c),
{
    c.to_uppercase().collect::<String>()
}

/// The text with its first character in uppercase and the rest unchanged.
pub open spec fn capitalized(s: Seq<char>) -> Seq<char> {
    if s.len() == 0 {
        s
    } else {
        upper_of(s[0]) + s.drop_first()
    }
}

/// The pieces of `s` between occurrences of `sep`, in order; as many as the
/// separators plus one, empty pieces included.
pub open spec fn pieces_of(s: Seq<char>, sep: char) -> Seq<Seq<char>>
    decreases s.len(),
{
    if s.len() == 0 {
        seq![Seq::<char>::empty()]
    } else {
        let init = pieces_of(s.drop_last(), sep);
        if s.last() == sep {
            init.push(Seq::<char>::empty())
        } else {
            init.update(init.len() - 1, init.last().push(s.last()))
        }
    }
}

/// The pieces joined with `sep` between each two.
pub open spec fn joined(parts: Seq<Seq<char>>, sep: Seq<char>) -> Seq<char>
    decreases parts.len(),
{
    if parts.len() == 0 {
        Seq::<char>::empty()
    } else if parts.len() == 1 {
        parts[0]
    } else {
        joined(parts.drop_last(), sep) + sep + parts.last()
    }
}

/// The display name of a package name: its dash-separated words capitalized
/// and joined with spaces.
pub open spec fn display_name_of(shortname: Seq<char>) -> Seq<char> {
    joined(pieces_of(shortname, '-').map_values(|w: Seq<char>| capitalized(w)), " "@)
}

/// Capitalizes the first character of `s`.
pub fn capitalize(s: &str) -> (r: String)
    ensures
        r@ == capitalized(s@),
{
    let n = s.unicode_len();
    if n == 0 {
        String::new()
    } else {
        let mut out = uppercase_char(s.get_char(0));
        let rest = s.substring_char(1, n);
        out.append(rest);
        assert(rest@ =~= s@.drop_first());
        out
    }
}

/// Splits `s` at every `sep`.
pub fn split_on(s: &str, sep: char) -> (r: Vec<String>)
    ensures
        r@.map_values(|p: String| p@) == pieces_of(s@, sep),
{
    let n = s.unicode_len();
    let mut parts: Vec<String> = Vec::new();
    let mut start: usize = 0;
    let mut i: usize = 0;
    assert(s@.subrange(0, 0) =~= Seq::<char>::empty());
    assert(parts@.map_values(|p: String| p@).push(s@.subrange(0, 0)) =~= seq![
        Seq::<char>::empty(),
    ]);
    while i < n
        invariant
            n == s@.len(),
            start <= i <= n,
            parts@.map_values(|p: String| p@).push(s@.subrange(start as int, i as int))
                == pieces_of(s@.subrange(0, i as int), sep),
        decreases n - i,
    {
        let c = s.get_char(i);
        let ghost prev = s@.subrange(0, i as int);
        let ghost next = s@.subrange(0, i + 1);
        assert(next.drop_last() =~= prev);
        assert(next.last() == c);
        if c == sep {
            let piece = String::from_str(s.substring_char(start, i));
            let ghost old_parts = parts@;
            parts.push(piece);
            assert(parts@.map_values(|p: String| p@) =~= old_parts.map_values(|p: String| p@).push(
                s@.subrange(start as int, i as int),
            ));
            start = i + 1;
            assert(s@.subrange(start as int, i + 1) =~= Seq::<char>::empty());
            assert(pieces_of(next, sep) == pieces_of(prev, sep).push(Seq::<char>::empty()));
            assert(parts@.map_values(|p: String| p@).push(s@.subrange(start as int, i + 1))
                =~= pieces_of(next, sep));
        } else {
            assert(s@.subrange(start as int, i + 1) =~= s@.subrange(start as int, i as int).push(
                c,
            ));
            assert(parts@.map_values(|p: String| p@).push(s@.subrange(start as int, i + 1))
                =~= pieces_of(next, sep));
        }
        i = i + 1;
    }
    let piece = String::from_str(s.substring_char(start, n));
    let ghost old_parts = parts@;
    parts.push(piece);
    assert(s@.subrange(0, n as int) =~= s@);
    assert(parts@.map_values(|p: String| p@) =~= old_parts.map_values(|p: String| p@).push(
        s@.subrange(start as int, n as int),
    ));
    parts
}

/// Joins the words' capitalized forms with single spaces.
fn join_capitalized(words: &Vec<String>) -> (r: String)
    ensures
        r@ == joined(words@.map_values(|w: String| capitalized(w@)), " "@),
{
    let mut out = String::new();
    let mut i: usize = 0;
    while i < words.len()
        invariant
            i <= words@.len(),
            out@ == joined(
                words@.subrange(0, i as int).map_values(|w: String| capitalized(w@)),
                " "@,
            ),
        decreases words@.len() - i,
    {
        let ghost done = words@.subrange(0, i as int).map_values(|w: String| capitalized(w@));
        let ghost upto = words@.subrange(0, i + 1).map_values(|w: String| capitalized(w@));
        assert(upto.drop_last() =~= done);
        assert(upto.last() == capitalized(words@[i as int]@));
        if i > 0 {
            out.append(" ");
        }
        let word = capitalize(words[i].as_str());
        out.append(word.as_str());
        proof {
            if i == 0 {
                assert(upto.len() == 1);
                assert(out@ =~= upto[0]);
            } else {
                assert(out@ =~= joined(done, " "@) + " "@ + upto.last());
            }
        }
        i = i + 1;
    }
    assert(words@.subrange(0, words@.len() as int) =~= words@);
    out
}

/// The display name of a package name, e.g. `mic-mute` becomes `Mic Mute`.
pub fn display_name(shortname: &str) -> (r: String)
    ensures
        r@ == display_name_of(shortname@),
{
    let words = split_on(shortname, '-');
    let r = join_capitalized(&words);
    assert(words@.map_values(|w: String| capitalized(w@)) =~= pieces_of(shortname@, '-').map_values(
        |w: Seq<char>| capitalized(w),
    ));
    r
}

/// Package metadata shown in the user interface.
#[derive(Debug, Clone)]
pub struct AppVars {
    pub name: String,
    pub shortname: String,
    pub version: String,
    pub description: String,
    pub repository: String,
    pub license: String,
    pub authors: Vec<String>,
}

impl AppVars {
    /// Builds the metadata from the package's fields, deriving the display name
    /// from the package name and splitting the author list at each `:`.
    pub fn from_package(
        shortname: &str,
        version: &str,
        description: &str,
        repository: &str,
        license: &str,
        authors: &str,
    ) -> (r: AppVars)
        ensures
            r.name@ == display_name_of(shortname@),
            r.shortname@ == shortname@,
            r.version@ == version@,
            r.description@ == description@,
            r.repository@ == repository@,
            r.license@ == license@,
            r.authors@.map_values(|a: String| a@) == pieces_of(authors@, ':'),
    {
        AppVars {
            name: display_name(shortname),
            shortname: String::from_str(shortname),
            version: String::from_str(version),
            description: String::from_str(description),
            repository: String::from_str(repository),
            license: String::from_str(license),
            authors: split_on(authors, ':'),
        }
    }
}

} // verus!
