use vstd::prelude::*;

verus! {

/// A keyed mapping from text keys to text values, the auxiliary information
/// that an error carries. Keys are unique; inserting an existing key replaces
/// its value.
pub struct UserInfo {
    keys: Vec<String>,
    values: Vec<String>,
    contents: Ghost<Map<Seq<char>, Seq<char>>>,
}

impl View for UserInfo {
    type V = Map<Seq<char>, Seq<char>>;

    closed spec fn view(&self) -> Map<Seq<char>, Seq<char>> {
        self.contents@
    }
}

impl UserInfo {
    /// The entries are held in two parallel vectors without repeated keys,
    /// and the abstract mapping holds exactly those entries.
    pub closed spec fn wf(&self) -> bool {
        &&& self.keys@.len() == self.values@.len()
        &&& forall|i: int, j: int|
            0 <= i < j < self.keys@.len() ==> #[trigger] self.keys@[i]@ != #[trigger] self.keys@[j]@
        &&& forall|i: int|
            0 <= i < self.keys@.len() ==> {
                &&& self@.contains_key(#[trigger] self.keys@[i]@)
                &&& self@[self.keys@[i]@] == self.values@[i]@
            }
        &&& forall|k: Seq<char>|
            #[trigger] self@.contains_key(k) ==> exists|i: int|
                0 <= i < self.keys@.len() && #[trigger] self.keys@[i]@ == k
    }

    /// An empty mapping.
    pub fn new() -> (r: UserInfo)
        ensures
            r.wf(),
            r@ == Map::<Seq<char>, Seq<char>>::empty(),
    {
        UserInfo { keys: Vec::new(), values: Vec::new(), contents: Ghost(Map::empty()) }
    }

    /// The index of `key` among the keys, if it is there.
    fn position(&self, key: &String) -> (r: Option<usize>)
        requires
            self.wf(),
        ensures
            match r {
                Some(i) => i < self.keys@.len() && self.keys@[i as int]@ == key@,
                None => !self@.contains_key(key@),
            },
    {
        let mut i: usize = 0;
        while i < self.keys.len()
            invariant
                self.wf(),
                i <= self.keys@.len(),
                forall|j: int| 0 <= j < i ==> self.keys@[j]@ != key@,
            decreases self.keys@.len() - i,
        {
            if self.keys[i] == *key {
                return Some(i);
            }
            i = i + 1;
        }
        None
    }

    /// Associates `value` with `key`, replacing the value that `key` had.
    pub fn insert(&mut self, key: String, value: String)
        requires
            old(self).wf(),
        ensures
            final(self).wf(),
            final(self)@ == old(self)@.insert(key@, value@),
    {
        let ghost k = key@;
        let ghost v = value@;
        match self.position(&key) {
            Some(i) => {
                self.values[i] = value;
                self.contents = Ghost(self.contents@.insert(k, v));
                assert forall|j: int| 0 <= j < self.keys@.len() && j != i implies self.keys@[j]@
                    != k by {
                    if j < i {
                        assert(self.keys@[j]@ != self.keys@[i as int]@);
                    } else {
                        assert(self.keys@[i as int]@ != self.keys@[j]@);
                    }
                }
            },
            None => {
                self.keys.push(key);
                self.values.push(value);
                self.contents = Ghost(self.contents@.insert(k, v));
                let ghost n = self.keys@.len() - 1;
                assert forall|k2: Seq<char>| #[trigger] self@.contains_key(k2) implies exists|i: int|
                    0 <= i < self.keys@.len() && #[trigger] self.keys@[i]@ == k2 by {
                    if k2 == k {
                        assert(self.keys@[n]@ == k2);
                    } else {
                        assert(old(self)@.contains_key(k2));
                        let i = choose|i: int|
                            0 <= i < old(self).keys@.len() && #[trigger] old(self).keys@[i]@ == k2;
                        assert(self.keys@[i]@ == k2);
                    }
                }
            },
        }
    }

    /// The value associated with `key`, if any.
    pub fn get(&self, key: &str) -> (r: Option<&str>)
        requires
            self.wf(),
        ensures
            match r {
                Some(v) => self@.contains_key(key@) && v@ == self@[key@],
                None => !self@.contains_key(key@),
            },
    {
        let k = key.to_owned();
        match self.position(&k) {
            Some(i) => Some(self.values[i].as_str()),
            None => None,
        }
    }
}

} // verus!
