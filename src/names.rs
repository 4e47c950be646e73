//! Multi-locale name maps and the selection of one locale's name.
use vstd::prelude::*;

verus! {

/// The placeholder used for every field that cannot be resolved.
pub const SENTINEL: &'static str = "-";

/// The locale whose names are reported.
pub const LOCALE: &'static str = "en";

/// The sentinel as a sequence of characters.
pub open spec fn sentinel() -> Seq<char> {
    seq!['-']
}

/// The reported locale as a sequence of characters.
pub open spec fn locale() -> Seq<char> {
    seq!['e', 'n']
}

/// The map that a list of (locale, name) entries stands for: a later entry
/// for a locale replaces an earlier one.
pub open spec fn entries_map(s: Seq<(String, String)>) -> Map<Seq<char>, Seq<char>>
    decreases s.len(),
{
    if s.len() == 0 {
        Map::empty()
    } else {
        entries_map(s.drop_last()).insert(s.last().0@, s.last().1@)
    }
}

/// A name in each of several locales.
pub struct LocaleNames {
    entries: Vec<(String, String)>,
}

impl View for LocaleNames {
    type V = Map<Seq<char>, Seq<char>>;

    closed spec fn view(&self) -> Map<Seq<char>, Seq<char>> {
        entries_map(self.entries@)
    }
}

/// The name that `names` holds for `locale`, or the sentinel when the map
/// or the locale's entry is absent.
pub open spec fn pick_name(names: Option<LocaleNames>, locale: Seq<char>) -> Seq<char> {
    match names {
        Some(m) => if m@.contains_key(locale) {
            m@[locale]
        } else {
            sentinel()
        },
        None => sentinel(),
    }
}

/// No entry after index `i` names `k`: the map then maps `k` as the prefix
/// up to and including `i` does.
proof fn lemma_entries_map_suffix(s: Seq<(String, String)>, i: int, k: Seq<char>)
    requires
        0 <= i < s.len(),
        forall|j: int| i < j < s.len() ==> s[j].0@ != k,
    ensures
        entries_map(s).contains_key(k) == entries_map(s.take(i + 1)).contains_key(k),
        entries_map(s)[k] == entries_map(s.take(i + 1))[k],
    decreases s.len(),
{
    if s.len() > i + 1 {
        assert(s.drop_last().take(i + 1) =~= s.take(i + 1));
        lemma_entries_map_suffix(s.drop_last(), i, k);
    } else {
        assert(s.take(i + 1) =~= s);
    }
}

/// No entry names `k`: the map does not hold `k`.
proof fn lemma_entries_map_absent(s: Seq<(String, String)>, k: Seq<char>)
    requires
        forall|j: int| 0 <= j < s.len() ==> s[j].0@ != k,
    ensures
        !entries_map(s).contains_key(k),
    decreases s.len(),
{
    if s.len() > 0 {
        lemma_entries_map_absent(s.drop_last(), k);
    }
}

impl LocaleNames {
    /// A map with no names.
    pub fn new() -> (r: LocaleNames)
        ensures
            r@ == Map::<Seq<char>, Seq<char>>::empty(),
    {
        LocaleNames { entries: Vec::new() }
    }

    /// Sets the name for `locale`, replacing any earlier one.
    pub fn insert(&mut self, locale: String, name: String)
        ensures
            final(self)@ == old(self)@.insert(locale@, name@),
    {
        let ghost s0 = self.entries@;
        self.entries.push((locale, name));
        assert(self.entries@.drop_last() =~= s0);
    }

    /// The name held for `locale`, if any.
    pub fn get(&self, locale: &String) -> (r: Option<&String>)
        ensures
            r matches Some(n) ==> self@.contains_key(locale@) && n@ == self@[locale@],
            r is None ==> !self@.contains_key(locale@),
    {
        let n = self.entries.len();
        let mut i: usize = n;
        while i > 0
            invariant
                i <= n == self.entries@.len(),
                forall|j: int| i <= j < n ==> self.entries@[j].0@ != locale@,
            decreases i,
        {
            i = i - 1;
            if self.entries[i].0 == *locale {
                proof {
                    let s = self.entries@;
                    lemma_entries_map_suffix(s, i as int, locale@);
                    assert(s.take(i + 1).drop_last() =~= s.take(i as int));
                }
                return Some(&self.entries[i].1);
            }
        }
        proof {
            lemma_entries_map_absent(self.entries@, locale@);
        }
        None
    }
}

/// The name for `locale` in `names`, or the sentinel where the map is absent
/// or holds no name for that locale.
pub fn select_locale(names: &Option<LocaleNames>, locale: &String) -> (r: String)
    ensures
        r@ == pick_name(*names, locale@),
{
    match names {
        Some(m) => match m.get(locale) {
            Some(n) => n.clone(),
            None => sentinel_string(),
        },
        None => sentinel_string(),
    }
}

/// A fresh copy of the sentinel.
pub fn sentinel_string() -> (r: String)
    ensures
        r@ == sentinel(),
{
    proof {
        reveal_strlit("-");
    }
    String::from_str(SENTINEL)
}

/// A fresh copy of the reported locale.
pub fn locale_string() -> (r: String)
    ensures
        r@ == locale(),
{
    proof {
        reveal_strlit("en");
    }
    String::from_str(LOCALE)
}

} // verus!
