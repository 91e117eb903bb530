//! The account directory: account records keyed by identifier, and the path
//! of the sealed TOTP secret.
use vstd::prelude::*;

use crate::error::WalletError;

verus! {

/// Whether an account is the primary one or was added later.
#[derive(Debug, Clone, Copy, PartialEq, Eq, Structural)]
pub enum AccountKind {
    Primary,
    Imported,
}

/// What a caller sees of an account.
#[derive(Debug, Clone)]
pub struct AccountView {
    address: String,
    kind: AccountKind,
}

/// The model of an account record.
pub struct ViewModel {
    pub address: Seq<char>,
    pub kind: AccountKind,
}

impl View for AccountView {
    type V = ViewModel;

    closed spec fn view(&self) -> ViewModel {
        ViewModel { address: self.address@, kind: self.kind }
    }
}

impl AccountView {
    /// A record for the account at `address`.
    pub fn new(address: String, kind: AccountKind) -> (r: AccountView)
        ensures
            r@ == (ViewModel { address: address@, kind }),
    {
        AccountView { address, kind }
    }

    /// The account's public address.
    pub fn address(&self) -> (r: String)
        ensures
            r@ == self@.address,
    {
        self.address.clone()
    }

    /// Whether the account is primary or imported.
    pub fn kind(&self) -> (r: AccountKind)
        ensures
            r == self@.kind,
    {
        self.kind
    }

    /// An equal record.
    pub fn duplicate(&self) -> (r: AccountView)
        ensures
            r@ == self@,
    {
        AccountView { address: self.address.clone(), kind: self.kind }
    }
}

/// An identifier with the record stored under it.
pub type Entry = (Seq<char>, ViewModel);

/// The number of primary records in `s`.
pub open spec fn primary_count(s: Seq<Entry>) -> nat
    decreases s.len(),
{
    if s.len() == 0 {
        0
    } else {
        primary_count(s.drop_last()) + if s.last().1.kind == AccountKind::Primary {
            1nat
        } else {
            0nat
        }
    }
}

/// Whether `s` holds a record under `id`.
pub open spec fn has_id(s: Seq<Entry>, id: Seq<char>) -> bool {
    exists|i: int| 0 <= i < s.len() && #[trigger] s[i].0 == id
}

/// No identifier appears twice.
pub open spec fn ids_distinct(s: Seq<Entry>) -> bool {
    forall|i: int, j: int| 0 <= i < j < s.len() ==> #[trigger] s[i].0 != #[trigger] s[j].0
}

/// A well-formed list of records: distinct identifiers and at most one
/// primary account.
pub open spec fn entries_wf(s: Seq<Entry>) -> bool {
    ids_distinct(s) && primary_count(s) <= 1
}

/// The model of a directory.
pub struct DirectoryModel {
    pub accounts: Seq<Entry>,
    /// The sealed TOTP secret, relative to the storage root.
    pub totp: Option<Seq<char>>,
}

/// Whether the directory holds a primary account.
pub open spec fn has_primary(d: DirectoryModel) -> bool {
    primary_count(d.accounts) > 0
}

/// The directory that loading `accounts` and `totp` gives: none where the
/// records are not well-formed.
pub open spec fn loaded(accounts: Seq<Entry>, totp: Option<Seq<char>>) -> Option<DirectoryModel> {
    if entries_wf(accounts) {
        Some(DirectoryModel { accounts, totp })
    } else {
        None
    }
}

/// The model of a record list as stored.
pub open spec fn entries_view(v: Seq<(String, AccountView)>) -> Seq<Entry> {
    v.map_values(|e: (String, AccountView)| (e.0@, e.1@))
}

/// The accounts of a user, keyed by identifier, and the TOTP secret's path.
pub struct UserData {
    accounts: Vec<(String, AccountView)>,
    totp: Option<String>,
}

impl View for UserData {
    type V = DirectoryModel;

    closed spec fn view(&self) -> DirectoryModel {
        DirectoryModel {
            accounts: entries_view(self.accounts@),
            totp: match self.totp {
                Some(t) => Some(t@),
                None => None,
            },
        }
    }
}

/// Appending one record adds one to the count when it is primary.
proof fn lemma_primary_count_push(s: Seq<Entry>, e: Entry)
    ensures
        primary_count(s.push(e)) == primary_count(s) + if e.1.kind == AccountKind::Primary {
            1nat
        } else {
            0nat
        },
{
    assert(s.push(e).drop_last() =~= s);
}

/// A list without primary records counts none.
proof fn lemma_no_primary(s: Seq<Entry>)
    requires
        forall|i: int| 0 <= i < s.len() ==> #[trigger] s[i].1.kind != AccountKind::Primary,
    ensures
        primary_count(s) == 0,
    decreases s.len(),
{
    if s.len() > 0 {
        lemma_no_primary(s.drop_last());
    }
}

/// A list with a primary record counts at least one.
proof fn lemma_some_primary(s: Seq<Entry>, i: int)
    requires
        0 <= i < s.len(),
        s[i].1.kind == AccountKind::Primary,
    ensures
        primary_count(s) > 0,
    decreases s.len(),
{
    if i < s.len() - 1 {
        lemma_some_primary(s.drop_last(), i);
    }
}

impl UserData {
    /// Distinct identifiers and at most one primary account.
    pub open spec fn wf(&self) -> bool {
        entries_wf(self@.accounts)
    }

    /// An empty directory.
    pub fn new() -> (r: UserData)
        ensures
            r@.accounts.len() == 0,
            r@.totp is None,
            r.wf(),
    {
        let r = UserData { accounts: Vec::new(), totp: None };
        assert(r@.accounts =~= Seq::<Entry>::empty());
        r
    }

    /// The index of the primary account, if there is one.
    pub fn primary_index(&self) -> (r: Option<usize>)
        ensures
            r is Some <==> has_primary(self@),
            r is Some ==> r.unwrap() < self@.accounts.len() && self@.accounts[r.unwrap() as int].1.kind
                == AccountKind::Primary,
    {
        let mut i: usize = 0;
        while i < self.accounts.len()
            invariant
                i <= self.accounts@.len(),
                self@.accounts.len() == self.accounts@.len(),
                forall|k: int| 0 <= k < i ==> #[trigger] self@.accounts[k].1.kind != AccountKind::Primary,
            decreases self.accounts.len() - i,
        {
            if self.accounts[i].1.kind == AccountKind::Primary {
                proof {
                    lemma_some_primary(self@.accounts, i as int);
                }
                return Some(i);
            }
            i = i + 1;
        }
        proof {
            lemma_no_primary(self@.accounts);
        }
        None
    }

    /// The identifier and the record at `index`.
    pub fn entry_at(&self, index: usize) -> (r: (String, AccountView))
        requires
            index < self@.accounts.len(),
        ensures
            r.0@ == self@.accounts[index as int].0,
            r.1@ == self@.accounts[index as int].1,
    {
        (self.accounts[index].0.clone(), self.accounts[index].1.duplicate())
    }

    /// Whether a record is stored under `id`.
    pub fn contains_id(&self, id: &String) -> (r: bool)
        ensures
            r == has_id(self@.accounts, id@),
    {
        let mut i: usize = 0;
        while i < self.accounts.len()
            invariant
                i <= self.accounts@.len(),
                self@.accounts.len() == self.accounts@.len(),
                forall|k: int| 0 <= k < i ==> #[trigger] self@.accounts[k].0 != id@,
            decreases self.accounts.len() - i,
        {
            if self.accounts[i].0 == *id {
                assert(self@.accounts[i as int].0 == id@);
                return true;
            }
            i = i + 1;
        }
        false
    }

    /// Store `view` under `id`. Refused, with nothing changed, where `id` is
    /// taken or where a second primary account would result.
    pub fn insert(&mut self, id: String, view: AccountView) -> (r: bool)
        requires
            old(self).wf(),
        ensures
            final(self).wf(),
            r == (!has_id(old(self)@.accounts, id@) && !(view@.kind == AccountKind::Primary
                && has_primary(old(self)@))),
            r ==> final(self)@ == (DirectoryModel {
                accounts: old(self)@.accounts.push((id@, view@)),
                ..old(self)@
            }),
            !r ==> final(self)@ == old(self)@,
    {
        if self.contains_id(&id) {
            return false;
        }
        if view.kind == AccountKind::Primary && self.primary_index().is_some() {
            return false;
        }
        let ghost before = self@.accounts;
        let ghost entry = (id@, view@);
        self.accounts.push((id, view));
        proof {
            assert(self@.accounts =~= before.push(entry));
            lemma_primary_count_push(before, entry);
            assert forall|i: int, j: int| 0 <= i < j < self@.accounts.len() implies
                #[trigger] self@.accounts[i].0 != #[trigger] self@.accounts[j].0 by {
                if j == before.len() {
                    assert(before[i].0 == self@.accounts[i].0);
                }
            }
        }
        true
    }

    /// Saving this directory's records and loading them again gives the same
    /// directory.
    pub fn reloaded(&self) -> (r: UserData)
        requires
            self.wf(),
        ensures
            r@ == self@,
            r.wf(),
    {
        let saved = self.entries();
        let totp = self.totp_path();
        match UserData::from_entries(saved, totp) {
            Ok(d) => d,
            Err(_) => {
                proof {
                    assert(false);
                }
                UserData::new()
            },
        }
    }

    /// The path of the sealed TOTP secret, relative to the storage root.
    pub fn totp_path(&self) -> (r: Option<String>)
        ensures
            r is None <==> self@.totp is None,
            r is Some ==> r.unwrap()@ == self@.totp.unwrap(),
    {
        match &self.totp {
            Some(t) => Some(t.clone()),
            None => None,
        }
    }

    /// Set the path of the sealed TOTP secret.
    pub fn set_totp_path(&mut self, path: Option<String>)
        ensures
            final(self)@.accounts == old(self)@.accounts,
            final(self)@.totp == (match path {
                Some(p) => Some(p@),
                None => None::<Seq<char>>,
            }),
    {
        self.totp = path;
    }

    /// The records, in stored order, each with its identifier.
    pub fn entries(&self) -> (r: Vec<(String, AccountView)>)
        ensures
            entries_view(r@) == self@.accounts,
    {
        let mut out: Vec<(String, AccountView)> = Vec::new();
        let mut i: usize = 0;
        while i < self.accounts.len()
            invariant
                i <= self.accounts@.len(),
                self@.accounts.len() == self.accounts@.len(),
                out@.len() == i,
                entries_view(out@) =~= self@.accounts.take(i as int),
            decreases self.accounts.len() - i,
        {
            let id = self.accounts[i].0.clone();
            let view = self.accounts[i].1.duplicate();
            let ghost before = out@;
            out.push((id, view));
            proof {
                assert forall|k: int| 0 <= k < i implies #[trigger] entries_view(out@)[k]
                    == self@.accounts[k] by {
                    assert(out@[k] == before[k]);
                    assert(entries_view(before)[k] == self@.accounts.take(i as int)[k]);
                }
                assert(entries_view(out@) =~= self@.accounts.take(i + 1));
            }
            i = i + 1;
        }
        assert(self@.accounts.take(self.accounts@.len() as int) =~= self@.accounts);
        out
    }

    /// The records alone, in stored order.
    pub fn views(&self) -> (r: Vec<AccountView>)
        ensures
            r@.len() == self@.accounts.len(),
            forall|i: int| 0 <= i < r@.len() ==> #[trigger] r@[i]@ == self@.accounts[i].1,
    {
        let mut out: Vec<AccountView> = Vec::new();
        let mut i: usize = 0;
        while i < self.accounts.len()
            invariant
                i <= self.accounts@.len(),
                self@.accounts.len() == self.accounts@.len(),
                out@.len() == i,
                forall|k: int| 0 <= k < i ==> #[trigger] out@[k]@ == self@.accounts[k].1,
            decreases self.accounts.len() - i,
        {
            out.push(self.accounts[i].1.duplicate());
            i = i + 1;
        }
        out
    }

    /// Build a directory from stored records and a TOTP path; refused where
    /// an identifier repeats or more than one account is primary.
    pub fn from_entries(entries: Vec<(String, AccountView)>, totp: Option<String>) -> (r: Result<
        UserData,
        WalletError,
    >)
        ensures
            r is Ok ==> r.unwrap().wf(),
            r is Ok <==> loaded(
                entries_view(entries@),
                match totp {
                    Some(t) => Some(t@),
                    None => None::<Seq<char>>,
                },
            ) is Some,
            r is Ok ==> Some(r.unwrap()@) == loaded(
                entries_view(entries@),
                match totp {
                    Some(t) => Some(t@),
                    None => None::<Seq<char>>,
                },
            ),
            r is Err ==> r == Err::<UserData, WalletError>(WalletError::IoError),
    {
        let ghost all = entries_view(entries@);
        let mut data = UserData::new();
        let mut i: usize = 0;
        while i < entries.len()
            invariant
                i <= entries@.len(),
                all == entries_view(entries@),
                data.wf(),
                data@.accounts =~= all.take(i as int),
                data@.totp is None,
            decreases entries.len() - i,
        {
            let id = entries[i].0.clone();
            let view = entries[i].1.duplicate();
            if !data.insert(id, view) {
                proof {
                    lemma_prefix_not_wf(all, i as int);
                }
                return Err(WalletError::IoError);
            }
            assert(data@.accounts =~= all.take(i + 1));
            i = i + 1;
        }
        assert(all.take(entries@.len() as int) =~= all);
        data.set_totp_path(totp);
        Ok(data)
    }
}

/// The primary count of a prefix never exceeds that of the whole list.
proof fn lemma_primary_count_prefix(s: Seq<Entry>, n: int)
    requires
        0 <= n <= s.len(),
    ensures
        primary_count(s.take(n)) <= primary_count(s),
    decreases s.len() - n,
{
    if n < s.len() {
        lemma_primary_count_prefix(s, n + 1);
        assert(s.take(n + 1).drop_last() =~= s.take(n));
    } else {
        assert(s.take(n) =~= s);
    }
}

/// Where record `i` cannot be added to the well-formed records before it,
/// the whole list is not well-formed.
proof fn lemma_prefix_not_wf(s: Seq<Entry>, i: int)
    requires
        0 <= i < s.len(),
        entries_wf(s.take(i)),
        has_id(s.take(i), s[i].0) || (s[i].1.kind == AccountKind::Primary && primary_count(
            s.take(i),
        ) > 0),
    ensures
        !entries_wf(s),
{
    if has_id(s.take(i), s[i].0) {
        let k = choose|k: int| 0 <= k < i && #[trigger] s.take(i)[k].0 == s[i].0;
        assert(s[k].0 == s[i].0);
    } else {
        lemma_primary_count_push(s.take(i), s[i]);
        assert(s.take(i).push(s[i]) =~= s.take(i + 1));
        lemma_primary_count_prefix(s, i + 1);
    }
}

} // verus!
