//! The keyed record store: records addressed by derived 32-byte addresses,
//! modelled as a map from address bytes to record views. Each entry keeps the
//! storage size reserved for it at creation, fixed by the kind's budget.

use vstd::prelude::*;

use crate::keys::Address;
use crate::records::CommentAccount;
use crate::records::CommentV;
use crate::records::UserAccount;
use crate::records::UserV;
use crate::records::VideoAccount;
use crate::records::VideoV;
use crate::space::budget;
use crate::space::spec_budget;
use crate::space::RecordKind;

verus! {

use vstd::pervasive::VecAdditionalExecFns;

/// A persisted record of any kind.
pub enum Record {
    User(UserAccount),
    Video(VideoAccount),
    Comment(CommentAccount),
}

/// The mathematical view of a persisted record.
#[verifier::ext_equal]
pub enum RecordV {
    User(UserV),
    Video(VideoV),
    Comment(CommentV),
}

impl View for Record {
    type V = RecordV;

    open spec fn view(&self) -> RecordV {
        match self {
            Record::User(u) => RecordV::User(u@),
            Record::Video(v) => RecordV::Video(v@),
            Record::Comment(c) => RecordV::Comment(c@),
        }
    }
}

impl RecordV {
    /// The kind of the record.
    pub open spec fn kind(self) -> RecordKind {
        match self {
            RecordV::User(_) => RecordKind::User,
            RecordV::Video(_) => RecordKind::Video,
            RecordV::Comment(_) => RecordKind::Comment,
        }
    }

    /// The field-level invariants of the record.
    pub open spec fn wf(self) -> bool {
        match self {
            RecordV::User(u) => u.wf(),
            RecordV::Video(v) => v.wf(),
            RecordV::Comment(c) => c.wf(),
        }
    }
}

/// Computes the kind of a record.
pub fn kind_of(rec: &Record) -> (r: RecordKind)
    ensures
        r == rec@.kind(),
{
    match rec {
        Record::User(_) => RecordKind::User,
        Record::Video(_) => RecordKind::Video,
        Record::Comment(_) => RecordKind::Comment,
    }
}

/// One stored record together with its address and its reserved storage size.
struct Entry {
    addr: Address,
    size: usize,
    rec: Record,
}

/// The map that a sequence of entries denotes: later entries shadow earlier
/// ones, though a well-formed store never holds two entries at one address.
spec fn map_of(s: Seq<Entry>) -> Map<Seq<u8>, RecordV>
    decreases s.len(),
{
    if s.len() == 0 {
        Map::empty()
    } else {
        map_of(s.drop_last()).insert(s.last().addr@, s.last().rec@)
    }
}

/// Entry-level well-formedness: addresses pairwise distinct and well-formed,
/// every record well-formed, and every reserved size exactly the kind's budget.
spec fn entries_wf(s: Seq<Entry>) -> bool {
    &&& forall|i: int, j: int| 0 <= i < j < s.len() ==> s[i].addr@ != s[j].addr@
    &&& forall|i: int|
        0 <= i < s.len() ==> (#[trigger] s[i]).addr.wf() && s[i].rec@.wf() && s[i].size
            == spec_budget(s[i].rec@.kind())
}

proof fn lemma_map_of_index(s: Seq<Entry>, i: int)
    requires
        forall|p: int, q: int| 0 <= p < q < s.len() ==> s[p].addr@ != s[q].addr@,
        0 <= i < s.len(),
    ensures
        map_of(s).contains_key(s[i].addr@),
        map_of(s)[s[i].addr@] == s[i].rec@,
    decreases s.len(),
{
    if i == s.len() - 1 {
    } else {
        lemma_map_of_index(s.drop_last(), i);
        assert(s[s.len() - 1].addr@ != s[i].addr@);
    }
}

proof fn lemma_map_of_absent(s: Seq<Entry>, a: Seq<u8>)
    requires
        forall|i: int| 0 <= i < s.len() ==> (#[trigger] s[i]).addr@ != a,
    ensures
        !map_of(s).contains_key(a),
    decreases s.len(),
{
    if s.len() > 0 {
        lemma_map_of_absent(s.drop_last(), a);
    }
}

proof fn lemma_map_of_push(s: Seq<Entry>, e: Entry)
    ensures
        map_of(s.push(e)) == map_of(s).insert(e.addr@, e.rec@),
{
    assert(s.push(e).drop_last() =~= s);
    assert(s.push(e).last() == e);
}

proof fn lemma_map_of_update(s: Seq<Entry>, i: int, e: Entry)
    requires
        forall|p: int, q: int| 0 <= p < q < s.len() ==> s[p].addr@ != s[q].addr@,
        0 <= i < s.len(),
        e.addr@ == s[i].addr@,
    ensures
        map_of(s.update(i, e)) == map_of(s).insert(e.addr@, e.rec@),
    decreases s.len(),
{
    if i == s.len() - 1 {
        assert(s.update(i, e).drop_last() =~= s.drop_last());
        assert(map_of(s.update(i, e)) =~= map_of(s).insert(e.addr@, e.rec@));
    } else {
        assert(s.update(i, e).drop_last() =~= s.drop_last().update(i, e));
        lemma_map_of_update(s.drop_last(), i, e);
        assert(s.last().addr@ != e.addr@);
        assert(s.update(i, e).last() == s.last());
        assert(map_of(s.update(i, e)) =~= map_of(s).insert(e.addr@, e.rec@));
    }
}

/// The keyed record store.
pub struct Ledger {
    entries: Vec<Entry>,
}

impl View for Ledger {
    type V = Map<Seq<u8>, RecordV>;

    closed spec fn view(&self) -> Map<Seq<u8>, RecordV> {
        map_of(self.entries@)
    }
}

impl Ledger {
    /// Well-formedness of the store: distinct addresses, well-formed records,
    /// and reserved sizes fixed by each kind's budget.
    pub closed spec fn wf(&self) -> bool {
        entries_wf(self.entries@)
    }

    /// An empty store.
    pub fn new() -> (r: Ledger)
        ensures
            r.wf(),
            r@ == Map::<Seq<u8>, RecordV>::empty(),
    {
        Ledger { entries: Vec::new() }
    }

    /// Finds the position of the entry at an address.
    fn find(&self, addr: &Address) -> (r: Option<usize>)
        requires
            self.wf(),
        ensures
            match r {
                Some(i) => i < self.entries@.len() && self.entries@[i as int].addr@ == addr@
                    && self@.contains_key(addr@) && self@[addr@] == self.entries@[i as int].rec@,
                None => !self@.contains_key(addr@),
            },
    {
        let n = self.entries.len();
        let mut i: usize = 0;
        while i < n
            invariant
                self.wf(),
                n == self.entries@.len(),
                0 <= i <= n,
                forall|k: int| 0 <= k < i ==> (#[trigger] self.entries@[k]).addr@ != addr@,
            decreases n - i,
        {
            if self.entries[i].addr.same_as(addr) {
                proof {
                    lemma_map_of_index(self.entries@, i as int);
                }
                return Some(i);
            }
            i += 1;
        }
        proof {
            lemma_map_of_absent(self.entries@, addr@);
        }
        None
    }

    /// Whether a record occupies the address.
    pub fn contains_addr(&self, addr: &Address) -> (r: bool)
        requires
            self.wf(),
        ensures
            r == self@.contains_key(addr@),
    {
        match self.find(addr) {
            Some(_) => true,
            None => false,
        }
    }

    /// The storage size reserved for the record at an address: fixed at
    /// creation as the record kind's budget, and never resized afterwards.
    pub fn reserved_size(&self, addr: &Address) -> (r: Option<usize>)
        requires
            self.wf(),
        ensures
            match r {
                Some(s) => self@.contains_key(addr@) && s == spec_budget(self@[addr@].kind()),
                None => !self@.contains_key(addr@),
            },
    {
        match self.find(addr) {
            Some(i) => Some(self.entries[i].size),
            None => None,
        }
    }

    /// The user record at an address, if one is there.
    pub fn get_user(&self, addr: &Address) -> (r: Option<&UserAccount>)
        requires
            self.wf(),
        ensures
            match r {
                Some(u) => self@.contains_key(addr@) && self@[addr@] == RecordV::User(u@)
                    && u@.wf(),
                None => !self@.contains_key(addr@) || !(self@[addr@] is User),
            },
    {
        match self.find(addr) {
            Some(i) => match &self.entries[i].rec {
                Record::User(u) => Some(u),
                _ => None,
            },
            None => None,
        }
    }

    /// The video record at an address, if one is there.
    pub fn get_video(&self, addr: &Address) -> (r: Option<&VideoAccount>)
        requires
            self.wf(),
        ensures
            match r {
                Some(v) => self@.contains_key(addr@) && self@[addr@] == RecordV::Video(v@)
                    && v@.wf(),
                None => !self@.contains_key(addr@) || !(self@[addr@] is Video),
            },
    {
        match self.find(addr) {
            Some(i) => match &self.entries[i].rec {
                Record::Video(v) => Some(v),
                _ => None,
            },
            None => None,
        }
    }

    /// The comment record at an address, if one is there.
    pub fn get_comment(&self, addr: &Address) -> (r: Option<&CommentAccount>)
        requires
            self.wf(),
        ensures
            match r {
                Some(c) => self@.contains_key(addr@) && self@[addr@] == RecordV::Comment(c@)
                    && c@.wf(),
                None => !self@.contains_key(addr@) || !(self@[addr@] is Comment),
            },
    {
        match self.find(addr) {
            Some(i) => match &self.entries[i].rec {
                Record::Comment(c) => Some(c),
                _ => None,
            },
            None => None,
        }
    }

    /// Reserves storage at a fresh address, sized by the record kind's
    /// budget, and writes the record there.
    pub(crate) fn insert_new(&mut self, addr: Address, rec: Record)
        requires
            old(self).wf(),
            !old(self)@.contains_key(addr@),
            addr.wf(),
            rec@.wf(),
        ensures
            final(self).wf(),
            final(self)@ == old(self)@.insert(addr@, rec@),
    {
        let ghost old_entries = self.entries@;
        proof {
            assert forall|i: int|
                0 <= i < old_entries.len() implies (#[trigger] old_entries[i]).addr@ != addr@ by {
                lemma_map_of_index(old_entries, i);
            }
        }
        let size = budget(kind_of(&rec));
        let e = Entry { addr, size, rec };
        self.entries.push(e);
        proof {
            lemma_map_of_push(old_entries, self.entries@.last());
            assert(self.entries@.drop_last() =~= old_entries);
        }
    }

    /// Overwrites the record at an occupied address with a record of the same
    /// kind; the storage reserved there keeps its size.
    pub(crate) fn replace_at(&mut self, addr: &Address, rec: Record)
        requires
            old(self).wf(),
            old(self)@.contains_key(addr@),
            rec@.wf(),
            rec@.kind() == old(self)@[addr@].kind(),
        ensures
            final(self).wf(),
            final(self)@ == old(self)@.insert(addr@, rec@),
    {
        let i = match self.find(addr) {
            Some(i) => i,
            None => {
                proof {
                    assert(false);
                }
                0
            },
        };
        let ghost old_entries = self.entries@;
        let e = Entry { addr: addr.dup(), size: self.entries[i].size, rec };
        proof {
            lemma_map_of_update(old_entries, i as int, e);
        }
        self.entries.set(i, e);
    }
}

} // verus!
