use vstd::prelude::*;

verus! {

/// The map that a list of settings denotes: a later setting of a key
/// overrides an earlier one.
pub open spec fn settings_map(s: Seq<(String, String)>) -> Map<Seq<char>, Seq<char>>
    decreases s.len(),
{
    if s.len() == 0 {
        Map::empty()
    } else {
        settings_map(s.drop_last()).insert(s.last().0@, s.last().1@)
    }
}

/// A snapshot of environment variables: a map from keys to text values.
pub struct Environment {
    settings: Vec<(String, String)>,
}

impl View for Environment {
    type V = Map<Seq<char>, Seq<char>>;

    closed spec fn view(&self) -> Map<Seq<char>, Seq<char>> {
        settings_map(self.settings@)
    }
}

/// When no setting of `s` from index `i` on has the key `k`, the settings
/// before `i` decide whether `k` is set and to what.
proof fn lemma_settings_prefix(s: Seq<(String, String)>, i: int, k: Seq<char>)
    requires
        0 <= i <= s.len(),
        forall|j: int| i <= j < s.len() ==> (#[trigger] s[j]).0@ != k,
    ensures
        settings_map(s).contains_key(k) == settings_map(s.subrange(0, i)).contains_key(k),
        settings_map(s).contains_key(k) ==> settings_map(s)[k] == settings_map(
            s.subrange(0, i),
        )[k],
    decreases s.len(),
{
    if s.len() > i {
        assert(s.drop_last() =~= s.subrange(0, s.len() - 1));
        assert(s.drop_last().subrange(0, i) =~= s.subrange(0, i));
        lemma_settings_prefix(s.drop_last(), i, k);
    } else {
        assert(s.subrange(0, i) =~= s);
    }
}

impl Environment {
    /// An environment in which no variable is set.
    pub fn new() -> (r: Environment)
        ensures
            r@ == Map::<Seq<char>, Seq<char>>::empty(),
    {
        Environment { settings: Vec::new() }
    }

    /// Sets `key` to `value`, replacing any earlier value of `key`.
    pub fn set(&mut self, key: &str, value: &str)
        ensures
            final(self)@ == old(self)@.insert(key@, value@),
    {
        let ghost before = self.settings@;
        self.settings.push((key.to_owned(), value.to_owned()));
        assert(self.settings@.drop_last() =~= before);
    }

    /// The value of `key`, if it is set.
    pub fn get(&self, key: &str) -> (r: Option<String>)
        ensures
            match r {
                Some(v) => self@.contains_key(key@) && v@ == self@[key@],
                None => !self@.contains_key(key@),
            },
    {
        let k = key.to_owned();
        let mut i: usize = self.settings.len();
        while i > 0
            invariant
                i <= self.settings@.len(),
                k@ == key@,
                forall|j: int| i <= j < self.settings@.len() ==> (#[trigger] self.settings@[j]).0@ != key@,
            decreases i,
        {
            i = i - 1;
            if self.settings[i].0 == k {
                proof {
                    let s = self.settings@;
                    lemma_settings_prefix(s, i + 1, key@);
                    assert(s.subrange(0, i + 1).drop_last() =~= s.subrange(0, i as int));
                }
                return Some(self.settings[i].1.clone());
            }
        }
        proof {
            lemma_settings_prefix(self.settings@, 0, key@);
        }
        None
    }
}

} // verus!
