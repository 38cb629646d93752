//! Relay messages and their string metadata.
use crate::codec::{base64_encodable, base64_standard, encode_base64_standard};
use crate::config::app_config::opt_str;
use crate::text::owned;
use vstd::prelude::*;

verus! {

/// The map that the entries `e` describe (a later entry for a key wins).
pub open spec fn map_of(e: Seq<(String, String)>) -> Map<Seq<char>, Seq<char>>
    decreases e.len(),
{
    if e.len() == 0 {
        Map::empty()
    } else {
        map_of(e.drop_last()).insert(e.last().0@, e.last().1@)
    }
}

/// No key occurs twice among the entries.
pub open spec fn distinct_keys(e: Seq<(String, String)>) -> bool {
    forall|i: int, j: int| 0 <= i < j < e.len() ==> e[i].0@ != e[j].0@
}

proof fn lemma_map_of_dom(e: Seq<(String, String)>)
    ensures
        forall|k: Seq<char>|
            #![trigger map_of(e).dom().contains(k)]
            map_of(e).dom().contains(k) <==> exists|i: int| 0 <= i < e.len() && e[i].0@ == k,
    decreases e.len(),
{
    if e.len() > 0 {
        lemma_map_of_dom(e.drop_last());
        assert forall|k: Seq<char>| #[trigger]
            map_of(e).dom().contains(k) implies exists|i: int| 0 <= i < e.len() && e[i].0@ == k by {
            if k == e.last().0@ {
                assert(e[e.len() - 1].0@ == k);
            } else {
                assert(map_of(e.drop_last()).dom().contains(k));
                let i = choose|i: int| 0 <= i < e.drop_last().len() && e.drop_last()[i].0@ == k;
                assert(e[i].0@ == k);
            }
        }
        assert forall|k: Seq<char>|
            (exists|i: int| 0 <= i < e.len() && e[i].0@ == k) implies #[trigger] map_of(
            e,
        ).dom().contains(k) by {
            let i = choose|i: int| 0 <= i < e.len() && e[i].0@ == k;
            if i < e.len() - 1 {
                assert(e.drop_last()[i].0@ == k);
                assert(map_of(e.drop_last()).dom().contains(k));
            }
        }
    }
}

proof fn lemma_map_of_update(e: Seq<(String, String)>, j: int, p: (String, String))
    requires
        distinct_keys(e),
        0 <= j < e.len(),
        p.0@ == e[j].0@,
    ensures
        map_of(e.update(j, p)) == map_of(e).insert(p.0@, p.1@),
    decreases e.len(),
{
    let u = e.update(j, p);
    if j == e.len() - 1 {
        assert(u.drop_last() =~= e.drop_last());
        assert(map_of(u) =~= map_of(e).insert(p.0@, p.1@));
    } else {
        assert(u.drop_last() =~= e.drop_last().update(j, p));
        lemma_map_of_update(e.drop_last(), j, p);
        assert(e.last().0@ != p.0@);
        assert(map_of(u) =~= map_of(e).insert(p.0@, p.1@));
    }
}

/// String metadata of a message: keys map to values, each key once.
#[derive(Debug)]
pub struct MetaMap {
    entries: Vec<(String, String)>,
}

impl MetaMap {
    #[verifier::type_invariant]
    spec fn keys_distinct(self) -> bool {
        distinct_keys(self.entries@)
    }
}

impl View for MetaMap {
    type V = Map<Seq<char>, Seq<char>>;

    closed spec fn view(&self) -> Map<Seq<char>, Seq<char>> {
        map_of(self.entries@)
    }
}

impl MetaMap {
    /// No metadata.
    pub fn new() -> (m: MetaMap)
        ensures
            m@ == Map::<Seq<char>, Seq<char>>::empty(),
    {
        let entries: Vec<(String, String)> = Vec::new();
        assert(distinct_keys(entries@));
        MetaMap { entries }
    }

    /// Sets `key` to `value`, replacing what `key` had.
    pub fn insert(&mut self, key: String, value: String)
        ensures
            final(self)@ == old(self)@.insert(key@, value@),
    {
        proof {
            use_type_invariant(&*self);
        }
        let mut entries: Vec<(String, String)> = Vec::new();
        std::mem::swap(&mut entries, &mut self.entries);
        let ghost e = entries@;
        let n = entries.len();
        let mut found: Option<usize> = None;
        let mut i: usize = 0;
        while i < n && found.is_none()
            invariant
                n == e.len(),
                entries@ == e,
                i <= n,
                found is None ==> forall|k: int| 0 <= k < i ==> e[k].0@ != key@,
                found matches Some(j) ==> j < n && e[j as int].0@ == key@,
            decreases n - i + if found is None {
                1int
            } else {
                0int
            },
        {
            if entries[i].0 == key {
                found = Some(i);
            } else {
                i = i + 1;
            }
        }
        let ghost p = (key, value);
        match found {
            Some(j) => {
                proof {
                    lemma_map_of_update(e, j as int, p);
                }
                entries.set(j, (key, value));
                assert(entries@ == e.update(j as int, p));
                assert(distinct_keys(entries@)) by {
                    assert forall|a: int, b: int| 0 <= a < b < entries@.len() implies entries@[a].0@
                        != entries@[b].0@ by {
                        if a != j && b != j {
                            assert(e[a].0@ != e[b].0@);
                        } else if a == j {
                            assert(e[j as int].0@ != e[b].0@);
                        } else {
                            assert(e[a].0@ != e[j as int].0@);
                        }
                    }
                }
            },
            None => {
                proof {
                    lemma_map_of_dom(e);
                }
                entries.push((key, value));
                assert(entries@ == e.push(p));
                assert(distinct_keys(entries@)) by {
                    assert forall|a: int, b: int| 0 <= a < b < entries@.len() implies entries@[a].0@
                        != entries@[b].0@ by {
                        if b == n {
                            assert(e[a].0@ != key@);
                        } else {
                            assert(e[a].0@ != e[b].0@);
                        }
                    }
                }
                assert(entries@.drop_last() =~= e);
                assert(map_of(entries@) == map_of(e).insert(p.0@, p.1@));
            },
        }
        self.entries = entries;
    }

    /// The value of `key`, if it has one.
    pub fn get(&self, key: &str) -> (r: Option<&String>)
        ensures
            match r {
                Some(v) => self@.dom().contains(key@) && self@[key@] == v@,
                None => !self@.dom().contains(key@),
            },
    {
        proof {
            use_type_invariant(self);
            lemma_map_of_dom(self.entries@);
        }
        let k = owned(key);
        let n = self.entries.len();
        for i in 0..n
            invariant
                n == self.entries@.len(),
                k@ == key@,
                distinct_keys(self.entries@),
                forall|m: int| 0 <= m < i ==> self.entries@[m].0@ != key@,
        {
            if self.entries[i].0 == k {
                proof {
                    lemma_map_of_lookup(self.entries@, i as int);
                }
                return Some(&self.entries[i].1);
            }
        }
        None
    }

    /// Whether `key` has a value.
    pub fn contains_key(&self, key: &str) -> (b: bool)
        ensures
            b == self@.dom().contains(key@),
    {
        self.get(key).is_some()
    }

    /// A copy with the same entries.
    pub fn copy(&self) -> (m: MetaMap)
        ensures
            m@ == self@,
    {
        proof {
            use_type_invariant(self);
        }
        let mut m = MetaMap::new();
        let n = self.entries.len();
        for i in 0..n
            invariant
                n == self.entries@.len(),
                m@ == map_of(self.entries@.take(i as int)),
        {
            let k = self.entries[i].0.clone();
            let v = self.entries[i].1.clone();
            m.insert(k, v);
            assert(self.entries@.take(i + 1).drop_last() =~= self.entries@.take(i as int));
        }
        assert(self.entries@.take(n as int) =~= self.entries@);
        m
    }

    /// The entries, each key once.
    pub fn entries(&self) -> (e: &Vec<(String, String)>)
        ensures
            map_of(e@) == self@,
            distinct_keys(e@),
    {
        proof {
            use_type_invariant(self);
        }
        &self.entries
    }
}

impl Clone for MetaMap {
    fn clone(&self) -> (m: Self)
        ensures
            m@ == self@,
    {
        self.copy()
    }
}

proof fn lemma_map_of_lookup(e: Seq<(String, String)>, i: int)
    requires
        distinct_keys(e),
        0 <= i < e.len(),
    ensures
        map_of(e).dom().contains(e[i].0@),
        map_of(e)[e[i].0@] == e[i].1@,
    decreases e.len(),
{
    if i < e.len() - 1 {
        lemma_map_of_lookup(e.drop_last(), i);
        assert(e.last().0@ != e[i].0@);
    }
}

/// WebSocket message exchanged with the relay.
#[derive(Debug, Clone)]
pub struct Message {
    pub msg_type: String,
    pub role: Option<String>,
    pub session: Option<String>,
    pub payload: Option<String>,
    pub meta: Option<MetaMap>,
}

/// The value of a `Message`.
pub struct MessageView {
    pub msg_type: Seq<char>,
    pub role: Option<Seq<char>>,
    pub session: Option<Seq<char>>,
    pub payload: Option<Seq<char>>,
    pub meta: Option<Map<Seq<char>, Seq<char>>>,
}

/// The view of optional metadata.
pub open spec fn opt_meta(m: Option<MetaMap>) -> Option<Map<Seq<char>, Seq<char>>> {
    match m {
        Some(v) => Some(v@),
        None => None,
    }
}

impl View for Message {
    type V = MessageView;

    open spec fn view(&self) -> MessageView {
        MessageView {
            msg_type: self.msg_type@,
            role: opt_str(self.role),
            session: opt_str(self.session),
            payload: opt_str(self.payload),
            meta: opt_meta(self.meta),
        }
    }
}

impl Message {
    /// A message of type `msg_type` with nothing else set.
    pub fn new(msg_type: &str) -> (m: Self)
        ensures
            m@ == (MessageView {
                msg_type: msg_type@,
                role: None,
                session: None,
                payload: None,
                meta: None,
            }),
    {
        Message { msg_type: owned(msg_type), role: None, session: None, payload: None, meta: None }
    }

    pub fn role(self, role: &str) -> (m: Self)
        ensures
            m@ == (MessageView { role: Some(role@), ..self@ }),
    {
        let mut m = self;
        m.role = Some(owned(role));
        m
    }

    pub fn session(self, session: &str) -> (m: Self)
        ensures
            m@ == (MessageView { session: Some(session@), ..self@ }),
    {
        let mut m = self;
        m.session = Some(owned(session));
        m
    }

    pub fn payload(self, payload: &str) -> (m: Self)
        ensures
            m@ == (MessageView { payload: Some(payload@), ..self@ }),
    {
        let mut m = self;
        m.payload = Some(owned(payload));
        m
    }

    /// Sets the payload to the standard Base64 encoding of `data`.
    pub fn payload_bytes(self, data: &[u8]) -> (m: Self)
        requires
            base64_encodable(data@.len()),
        ensures
            m@ == (MessageView { payload: Some(base64_standard(data@)), ..self@ }),
    {
        let mut m = self;
        m.payload = Some(encode_base64_standard(data));
        m
    }

    /// Sets one metadata entry, creating the metadata if there was none.
    pub fn meta(self, key: &str, value: &str) -> (m: Self)
        ensures
            m@ == (MessageView {
                meta: Some(
                    match self@.meta {
                        Some(old_meta) => old_meta,
                        None => Map::empty(),
                    }.insert(key@, value@),
                ),
                ..self@
            }),
    {
        let mut m = self;
        let mut meta = match m.meta {
            Some(existing) => existing,
            None => MetaMap::new(),
        };
        meta.insert(owned(key), owned(value));
        m.meta = Some(meta);
        m
    }

    /// Replaces the metadata.
    pub fn meta_map(self, map: MetaMap) -> (m: Self)
        ensures
            m@ == (MessageView { meta: Some(map@), ..self@ }),
    {
        let mut m = self;
        m.meta = Some(map);
        m
    }
}

/// Setting a metadata entry and reading it back gives the value; other keys
/// keep theirs.
pub proof fn lemma_meta_read_back(
    meta: Map<Seq<char>, Seq<char>>,
    key: Seq<char>,
    value: Seq<char>,
    other: Seq<char>,
)
    requires
        other != key,
    ensures
        meta.insert(key, value)[key] == value,
        meta.insert(key, value).dom().contains(other) == meta.dom().contains(other),
        meta.dom().contains(other) ==> meta.insert(key, value)[other] == meta[other],
{
}

} // verus!
