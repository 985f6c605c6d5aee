//! The bot's configuration, and which configuration files are read, in which order.
use vstd::prelude::*;
use crate::text::{same_text, starts_with};

verus! {

/// Configuration for the Discord bot.
#[derive(Debug)]
pub struct Bot {
    /// Discord application token.
    pub discord_token: String,
}

/// Configuration for the database connection.
#[derive(Debug)]
pub struct Database {
    /// Database URL.
    pub url: String,
    /// Connection pool size.
    pub pool_size: Option<u32>,
    /// The Postgres schema.
    pub schema: Option<String>,
}

/// Configuration for the Minecraft server.
#[derive(Debug)]
pub struct Minecraft {
    /// Minecraft server RCON address.
    pub rcon_address: String,
    /// RCON password.
    pub rcon_password: String,
}

/// The whole configuration.
#[derive(Debug)]
pub struct Config {
    pub bot: Bot,
    pub database: Database,
    pub minecraft: Minecraft,
}

/// The order of texts that `Ord` on `String` gives: character by character (byte order of
/// UTF-8 is the order of code points), a prefix first.
pub open spec fn text_le(a: Seq<char>, b: Seq<char>) -> bool
    decreases a.len(),
{
    if a.len() == 0 {
        true
    } else if b.len() == 0 {
        false
    } else if a[0] != b[0] {
        (a[0] as int) < (b[0] as int)
    } else {
        text_le(a.drop_first(), b.drop_first())
    }
}

/// Any two texts are ordered one way or the other.
pub proof fn lemma_text_le_total(a: Seq<char>, b: Seq<char>)
    ensures
        text_le(a, b) || text_le(b, a),
    decreases a.len(),
{
    if a.len() > 0 && b.len() > 0 {
        if a[0] == b[0] {
            lemma_text_le_total(a.drop_first(), b.drop_first());
        } else {
            assert((a[0] as int) != (b[0] as int));
        }
    }
}

/// The order of texts is transitive.
pub proof fn lemma_text_le_transitive(a: Seq<char>, b: Seq<char>, c: Seq<char>)
    requires
        text_le(a, b),
        text_le(b, c),
    ensures
        text_le(a, c),
    decreases a.len(),
{
    if a.len() > 0 && b.len() > 0 && c.len() > 0 && a[0] == b[0] && b[0] == c[0] {
        lemma_text_le_transitive(a.drop_first(), b.drop_first(), c.drop_first());
    }
}

/// Compares two texts in the order of `text_le`.
pub fn text_le_exec(a: &str, b: &str) -> (r: bool)
    ensures
        r == text_le(a@, b@),
{
    let n = a.unicode_len();
    let m = b.unicode_len();
    let mut i: usize = 0;
    assert(a@.skip(0) =~= a@);
    assert(b@.skip(0) =~= b@);
    while i < n && i < m
        invariant
            n == a@.len(),
            m == b@.len(),
            i <= n,
            i <= m,
            text_le(a@, b@) == text_le(a@.skip(i as int), b@.skip(i as int)),
        decreases n - i,
    {
        let x = a.get_char(i);
        let y = b.get_char(i);
        assert(a@.skip(i as int)[0] == x);
        assert(b@.skip(i as int)[0] == y);
        if x != y {
            return (x as u32) < (y as u32);
        }
        assert(a@.skip(i as int).drop_first() =~= a@.skip(i + 1));
        assert(b@.skip(i as int).drop_first() =~= b@.skip(i + 1));
        i = i + 1;
    }
    i == n
}

/// The texts are in order.
pub open spec fn texts_sorted(s: Seq<Seq<char>>) -> bool {
    forall|i: int, j: int| 0 <= i < j < s.len() ==> text_le(#[trigger] s[i], #[trigger] s[j])
}

/// The texts of a vector of strings.
pub open spec fn texts(v: Seq<String>) -> Seq<Seq<char>> {
    v.map_values(|s: String| s@)
}

/// Sorts texts in ascending order, as `sort` on a vector of strings does.
pub fn sort_texts(v: Vec<String>) -> (r: Vec<String>)
    ensures
        texts_sorted(texts(r@)),
        texts(r@).to_multiset() == texts(v@).to_multiset(),
{
    let mut r: Vec<String> = Vec::new();
    let n = v.len();
    let mut i: usize = 0;
    assert(texts(v@).take(0) =~= Seq::<Seq<char>>::empty());
    assert(texts(r@) =~= Seq::<Seq<char>>::empty());
    while i < n
        invariant
            n == v@.len(),
            i <= n,
            texts_sorted(texts(r@)),
            texts(r@).to_multiset() == texts(v@).take(i as int).to_multiset(),
        decreases n - i,
    {
        let x = v[i].clone();
        let mut p: usize = 0;
        while p < r.len() && text_le_exec(r[p].as_str(), x.as_str())
            invariant
                p <= r@.len(),
                forall|k: int| 0 <= k < p ==> text_le(#[trigger] texts(r@)[k], x@),
            decreases r@.len() - p,
        {
            p = p + 1;
        }
        let ghost before = texts(r@);
        proof {
            if p < r@.len() {
                lemma_text_le_total(x@, before[p as int]);
            }
        }
        r.insert(p, x);
        assert(texts(r@) =~= before.insert(p as int, x@));
        proof {
            vstd::seq_lib::to_multiset_insert(before, p as int, x@);
            vstd::seq_lib::to_multiset_build(texts(v@).take(i as int), x@);
        }
        assert forall|a: int, b: int| 0 <= a < b < texts(r@).len() implies text_le(
            #[trigger] texts(r@)[a],
            #[trigger] texts(r@)[b],
        ) by {
            let s = texts(r@);
            if b < p {
                assert(text_le(before[a], before[b]));
            } else if b == p {
                assert(text_le(before[a], x@));
            } else if a == p {
                assert(text_le(x@, before[p as int]));
                if b - 1 > p {
                    assert(text_le(before[p as int], before[b - 1]));
                    lemma_text_le_transitive(x@, before[p as int], before[b - 1]);
                }
            } else if a < p {
                assert(text_le(before[a], before[b - 1]));
            } else {
                assert(text_le(before[a - 1], before[b - 1]));
            }
        }
        assert(texts(v@).take(i + 1) =~= texts(v@).take(i as int).push(x@));
        i = i + 1;
    }
    assert(texts(v@).take(n as int) =~= texts(v@));
    r
}


/// A file met while walking the configuration directory: its full path, its file name and
/// its extension (as `Path::file_name` and `Path::extension` give them).
#[derive(Debug)]
pub struct FoundFile {
    pub path: String,
    pub file_name: Option<String>,
    pub extension: Option<String>,
}

/// The model of a found file.
pub struct FoundModel {
    pub path: Seq<char>,
    pub file_name: Option<Seq<char>>,
    pub extension: Option<Seq<char>>,
}

impl View for FoundFile {
    type V = FoundModel;

    open spec fn view(&self) -> FoundModel {
        FoundModel {
            path: self.path@,
            file_name: match self.file_name {
                Some(n) => Some(n@),
                None => None,
            },
            extension: match self.extension {
                Some(e) => Some(e@),
                None => None,
            },
        }
    }
}

/// The models of found files.
pub open spec fn found_models(v: Seq<FoundFile>) -> Seq<FoundModel> {
    v.map_values(|f: FoundFile| f@)
}

/// A configuration file: its name begins with `prefix` and its extension is `extension`.
pub open spec fn is_config_file(f: FoundModel, prefix: Seq<char>, extension: Seq<char>) -> bool {
    &&& f.file_name matches Some(n) && prefix.is_prefix_of(n)
    &&& f.extension matches Some(e) && e == extension
}

/// The paths of the configuration files among the found files, in the order found.
pub open spec fn selected_paths(found: Seq<FoundModel>, prefix: Seq<char>, extension: Seq<char>) -> Seq<Seq<char>>
    decreases found.len(),
{
    if found.len() == 0 {
        Seq::empty()
    } else {
        let before = selected_paths(found.drop_last(), prefix, extension);
        if is_config_file(found.last(), prefix, extension) {
            before.push(found.last().path)
        } else {
            before
        }
    }
}

/// Whether a found file is a configuration file.
pub fn config_file_matches(f: &FoundFile, prefix: &str, extension: &str) -> (b: bool)
    ensures
        b == is_config_file(f@, prefix@, extension@),
{
    let name_ok = match &f.file_name {
        Some(n) => starts_with(n.as_str(), prefix),
        None => false,
    };
    let ext_ok = match &f.extension {
        Some(e) => same_text(e.as_str(), extension),
        None => false,
    };
    name_ok && ext_ok
}

/// The configuration files to read, in the order they are merged: the paths of the found
/// files whose name begins with `prefix` and whose extension is `extension`, sorted.
pub fn config_files(found: &Vec<FoundFile>, prefix: &str, extension: &str) -> (r: Vec<String>)
    ensures
        texts_sorted(texts(r@)),
        texts(r@).to_multiset() == selected_paths(found_models(found@), prefix@, extension@).to_multiset(),
{
    let ghost model = found_models(found@);
    let mut picked: Vec<String> = Vec::new();
    let mut i: usize = 0;
    assert(model.take(0) =~= Seq::<FoundModel>::empty());
    assert(texts(picked@) =~= Seq::<Seq<char>>::empty());
    while i < found.len()
        invariant
            model == found_models(found@),
            i <= found@.len(),
            texts(picked@) == selected_paths(model.take(i as int), prefix@, extension@),
        decreases found@.len() - i,
    {
        let f = &found[i];
        assert(model.take(i + 1).drop_last() =~= model.take(i as int));
        assert(model.take(i + 1).last() == f@);
        if config_file_matches(f, prefix, extension) {
            let ghost before = texts(picked@);
            picked.push(f.path.clone());
            assert(texts(picked@) =~= before.push(f@.path));
        }
        i = i + 1;
    }
    assert(model.take(found@.len() as int) =~= model);
    sort_texts(picked)
}

} // verus!
