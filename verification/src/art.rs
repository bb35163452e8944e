//! Album-art resolution policy: the background-image lookup key derived from
//! the artist string, and the plan of what the shell must load or clear when
//! a song change re-resolves art.
//!
//! The key is the artist string cut at the first of the separators `", "`,
//! `"/"`, `" & "`, `"; "` — applied in that order, each to the segment the
//! previous cut kept — and lowercased.

use vstd::prelude::*;
use vstd::string::StrSliceExecFns;
use crate::model::Song;

verus! {

/// The separator `sep` occurs in `s` starting at index `i`.
pub open spec fn match_at(s: Seq<char>, sep: Seq<char>, i: int) -> bool {
    &&& 0 <= i
    &&& i + sep.len() <= s.len()
    &&& s.subrange(i, i + sep.len()) == sep
}

/// The index of the first occurrence of `sep` in `s`, or `s.len()` when it
/// does not occur.
pub open spec fn find_sep(s: Seq<char>, sep: Seq<char>) -> nat
    recommends
        sep.len() >= 1,
    decreases s.len(),
{
    if sep.len() == 0 {
        0
    } else if s.len() < sep.len() {
        s.len()
    } else if s.take(sep.len() as int) == sep {
        0
    } else {
        1 + find_sep(s.skip(1), sep)
    }
}

/// `find_sep` is the index of the first occurrence: no occurrence starts
/// before it, and it either marks an occurrence or runs off the end because
/// there is none.
pub proof fn lemma_find_sep_is_first_match(s: Seq<char>, sep: Seq<char>)
    requires
        sep.len() >= 1,
    ensures
        find_sep(s, sep) <= s.len(),
        forall|i: int| 0 <= i < find_sep(s, sep) ==> !match_at(s, sep, i),
        find_sep(s, sep) == s.len() || match_at(s, sep, find_sep(s, sep) as int),
    decreases s.len(),
{
    let m = sep.len() as int;
    if s.len() < sep.len() {
    } else if s.take(m) == sep {
        assert(s.subrange(0, m) =~= s.take(m));
    } else {
        lemma_find_sep_is_first_match(s.skip(1), sep);
        let f = find_sep(s, sep) as int;
        let fr = find_sep(s.skip(1), sep) as int;
        assert forall|i: int| 0 <= i < f implies !match_at(s, sep, i) by {
            if i == 0 {
                assert(s.subrange(0, m) =~= s.take(m));
            } else if i + m <= s.len() {
                assert(s.skip(1).subrange(i - 1, i - 1 + m) =~= s.subrange(i, i + m));
                assert(!match_at(s.skip(1), sep, i - 1));
            }
        }
        if fr < s.skip(1).len() {
            assert(s.skip(1).subrange(fr, fr + m) =~= s.subrange(fr + 1, fr + 1 + m));
        }
    }
}

/// The prefix of `s` before the first occurrence of `sep` (all of `s` when
/// `sep` does not occur).
pub open spec fn cut_before(s: Seq<char>, sep: Seq<char>) -> Seq<char> {
    s.take(find_sep(s, sep) as int)
}

/// The first artist of a joint artist string: the prefix before `", "`, in it
/// the prefix before `"/"`, then before `" & "`, then before `"; "`.
pub open spec fn spec_first_artist(s: Seq<char>) -> Seq<char> {
    cut_before(
        cut_before(cut_before(cut_before(s, seq![',', ' ']), seq!['/']), seq![' ', '&', ' ']),
        seq![';', ' '],
    )
}

fn match_at_exec(s: &str, sep: &Vec<char>, i: usize) -> (r: bool)
    requires
        i + sep@.len() <= s@.len(),
        s@.len() <= usize::MAX,
    ensures
        r == match_at(s@, sep@, i as int),
{
    let m = sep.len();
    let mut j: usize = 0;
    while j < m
        invariant
            0 <= j <= m,
            m == sep@.len(),
            i + m <= s@.len(),
            s@.len() <= usize::MAX,
            forall|k: int| 0 <= k < j ==> s@[i + k] == sep@[k],
        decreases m - j,
    {
        let c = s.get_char(i + j);
        if c != sep[j] {
            proof {
                if match_at(s@, sep@, i as int) {
                    assert(s@.subrange(i as int, i + sep@.len())[j as int] == sep@[j as int]);
                }
            }
            return false;
        }
        j += 1;
    }
    proof {
        assert(s@.subrange(i as int, i + sep@.len()) =~= sep@);
    }
    true
}

fn find_first(s: &str, sep: &Vec<char>) -> (i: usize)
    requires
        sep@.len() >= 1,
    ensures
        i == find_sep(s@, sep@),
        i <= s@.len(),
{
    let n = s.unicode_len();
    let m = sep.len();
    if m > n {
        return n;
    }
    let ghost sv = s@;
    let ghost sepv = sep@;
    proof {
        assert(sv.skip(0) =~= sv);
    }
    let mut i: usize = 0;
    while i <= n - m
        invariant
            0 <= i <= n - m + 1,
            1 <= m <= n,
            n == sv.len(),
            m == sepv.len(),
            sv == s@,
            sepv == sep@,
            find_sep(sv, sepv) == i + find_sep(sv.skip(i as int), sepv),
        decreases n - i,
    {
        let ghost t = sv.skip(i as int);
        proof {
            assert(t.take(m as int) =~= sv.subrange(i as int, i + m));
        }
        if match_at_exec(s, sep, i) {
            proof {
                assert(find_sep(t, sepv) == 0);
            }
            return i;
        }
        proof {
            assert(find_sep(t, sepv) == 1 + find_sep(t.skip(1), sepv));
            assert(t.skip(1) =~= sv.skip(i + 1));
        }
        i += 1;
    }
    proof {
        assert(sv.skip(i as int).len() == n - i);
        assert(find_sep(sv.skip(i as int), sepv) == n - i);
    }
    n
}

fn cut_prefix<'a>(s: &'a str, sep: &Vec<char>) -> (r: &'a str)
    requires
        sep@.len() >= 1,
    ensures
        r@ == cut_before(s@, sep@),
{
    let i = find_first(s, sep);
    s.substring_char(0, i)
}

/// What `str::to_lowercase` returns: the Unicode lowercase of the string,
/// a function of its characters alone.
pub uninterp spec fn lower_of(s: Seq<char>) -> Seq<char>;

/// Relies on str::to_lowercase: the result depends on the characters alone,
/// and an empty string stays empty.
#[verifier::external_body]
fn lowercase(s: &str) -> (r: String)
    ensures
        r@ == lower_of(s@),
        s@.len() == 0 ==> r@.len() == 0,
{
    s.to_lowercase()
}

/// Derives the background-image lookup key from an artist string: the first
/// artist of a joint credit (first separator found wins, first segment kept),
/// lowercased.
pub fn background_key(artist: &str) -> (key: String)
    ensures
        key@ == lower_of(spec_first_artist(artist@)),
{
    let sep_comma: Vec<char> = vec![',', ' '];
    let sep_slash: Vec<char> = vec!['/'];
    let sep_amp: Vec<char> = vec![' ', '&', ' '];
    let sep_semi: Vec<char> = vec![';', ' '];
    proof {
        assert(sep_comma@ =~= seq![',', ' ']);
        assert(sep_slash@ =~= seq!['/']);
        assert(sep_amp@ =~= seq![' ', '&', ' ']);
        assert(sep_semi@ =~= seq![';', ' ']);
    }
    let a = cut_prefix(artist, &sep_comma);
    let b = cut_prefix(a, &sep_slash);
    let c = cut_prefix(b, &sep_amp);
    let d = cut_prefix(c, &sep_semi);
    lowercase(d)
}

/// What one art re-resolution obliges the shell to do. `background_key` is
/// the lookup key of the background image to load, or `None` to clear the
/// background; `album_fetch_file` is the song file to hand the external
/// picture extractor, or `None` to leave the album image as it is.
pub struct ArtPlan {
    pub background_key: Option<String>,
    pub album_fetch_file: Option<String>,
}

/// The art-resolution plan for the song now playing: with an artist, load the
/// background keyed by the first artist, lowercased; without one, clear the
/// background. With a song, fetch its album picture by file path; with
/// nothing playing, keep the album image and clear only the background.
pub fn art_plan(song: &Option<Song>) -> (p: ArtPlan)
    ensures
        p.background_key is Some <==> (song is Some && song->0.artist is Some),
        (song is Some && song->0.artist is Some) ==> p.background_key->0@ == lower_of(
            spec_first_artist(song->0.artist->0@),
        ),
        p.album_fetch_file is Some <==> song is Some,
        song is Some ==> p.album_fetch_file->0@ == song->0.file@,
{
    match song {
        Some(s) => {
            let background_key = match &s.artist {
                Some(artist) => Some(background_key(artist.as_str())),
                None => None,
            };
            ArtPlan { background_key, album_fetch_file: Some(s.file.clone()) }
        },
        None => ArtPlan { background_key: None, album_fetch_file: None },
    }
}

/// Which image the album slot shows after a fetch: the decoded picture when
/// the extraction tool ran and its output decoded, else the backup image.
#[derive(Clone, Copy, PartialEq, Eq, Structural, Debug)]
pub enum AlbumChoice {
    Decoded,
    Backup,
}

/// Decides what the album slot shows after a fetch attempt: the decoded
/// picture exactly when the tool ran and its output decoded as an image; any
/// failure degrades to the backup image, never to an error.
pub fn album_choice(fetch_ok: bool, decode_ok: bool) -> (c: AlbumChoice)
    ensures
        c is Decoded <==> (fetch_ok && decode_ok),
{
    if fetch_ok && decode_ok {
        AlbumChoice::Decoded
    } else {
        AlbumChoice::Backup
    }
}

} // verus!
