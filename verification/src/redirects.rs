//! The `redirects` relation and the rules over it: a redirect belongs
//! to exactly one user, only its owner may read or change it, and its
//! TLS provisioning state is derived from the row's flags.

use vstd::prelude::*;

use crate::UserID;
use crate::errors::ApiError;

verus! {

/// The owner-facing summary of one redirect.
#[derive(Debug)]
pub struct RedirectInfo {
    pub id: i32,
    pub host: String,
    pub destination: String,
    pub visits_total: Option<i32>,
    pub visits_month: Option<i32>,
}

/// One row of the `redirects` relation.
#[derive(Debug)]
pub struct RedirectRow {
    pub id: i32,
    pub host: String,
    pub destination: String,
    pub owner: i32,
    pub visits_total: Option<i32>,
    pub visits_month: Option<i32>,
    pub acme_failed: bool,
    pub tls_ready: bool,
    pub record_confirmed: bool,
}

/// The provisioning state of a redirect's certificate.
#[derive(Debug, PartialEq, Eq, Structural, Clone, Copy)]
pub enum TlsState {
    Ready,
    Error,
    Pending,
}

/// The state a row's flags announce: a stored certificate wins, a
/// failed issuance is an error, anything else is still pending.
pub fn tls_state_of(tls_ready: bool, acme_failed: bool) -> (r: TlsState)
    ensures
        r == (if tls_ready {
            TlsState::Ready
        } else if acme_failed {
            TlsState::Error
        } else {
            TlsState::Pending
        }),
{
    if tls_ready {
        TlsState::Ready
    } else if acme_failed {
        TlsState::Error
    } else {
        TlsState::Pending
    }
}

/// The owner's full view of one redirect.
#[derive(Debug)]
pub struct RedirectDetail {
    pub base: RedirectInfo,
    pub tls: TlsState,
    pub record_confirmed: bool,
}

/// The summary a row maps to.
pub open spec fn info_of(row: &RedirectRow) -> RedirectInfo {
    RedirectInfo {
        id: row.id,
        host: row.host,
        destination: row.destination,
        visits_total: row.visits_total,
        visits_month: row.visits_month,
    }
}

/// The summaries of an owner's rows, in relation order.
pub open spec fn owner_infos(rows: Seq<RedirectRow>, owner: i32) -> Seq<RedirectInfo>
    decreases rows.len(),
{
    if rows.len() == 0 {
        Seq::empty()
    } else if rows.last().owner == owner {
        owner_infos(rows.drop_last(), owner).push(info_of(&rows.last()))
    } else {
        owner_infos(rows.drop_last(), owner)
    }
}

/// `k` is the position of the row with this redirect id.
pub open spec fn redirect_at(rows: Seq<RedirectRow>, id: i32, k: int) -> bool {
    0 <= k < rows.len() && rows[k].id == id
}

/// The `redirects` relation: ids assigned in insertion order.
#[derive(Debug)]
pub struct RedirectTable {
    pub rows: Vec<RedirectRow>,
    pub next_id: i32,
}

impl RedirectTable {
    /// Ids are unique and below the allocator.
    pub open spec fn wf(&self) -> bool {
        &&& forall|i: int, j: int|
            0 <= i < j < self.rows@.len() ==> self.rows@[i].id != self.rows@[j].id
        &&& forall|i: int| 0 <= i < self.rows@.len() ==> #[trigger] self.rows@[i].id < self.next_id
    }

    /// An empty relation; the first redirect gets id 1.
    pub fn new() -> (t: RedirectTable)
        ensures
            t.wf(),
            t.rows@.len() == 0,
            t.next_id == 1,
    {
        RedirectTable { rows: Vec::new(), next_id: 1 }
    }

    /// The summaries of every redirect this user owns.
    pub fn list_by_owner(&self, owner: i32) -> (r: Vec<RedirectInfo>)
        ensures
            r@ == owner_infos(self.rows@, owner),
    {
        let mut r: Vec<RedirectInfo> = Vec::new();
        let n = self.rows.len();
        let mut i: usize = 0;
        while i < n
            invariant
                i <= n,
                n == self.rows@.len(),
                r@ == owner_infos(self.rows@.subrange(0, i as int), owner),
            decreases n - i,
        {
            proof {
                assert(self.rows@.subrange(0, i + 1).drop_last() =~= self.rows@.subrange(
                    0,
                    i as int,
                ));
                assert(self.rows@.subrange(0, i + 1).last() == self.rows@[i as int]);
            }
            let row = &self.rows[i];
            if row.owner == owner {
                r.push(
                    RedirectInfo {
                        id: row.id,
                        host: row.host.clone(),
                        destination: row.destination.clone(),
                        visits_total: row.visits_total,
                        visits_month: row.visits_month,
                    },
                );
            }
            i += 1;
        }
        proof {
            assert(self.rows@.subrange(0, n as int) =~= self.rows@);
        }
        r
    }

    /// The row with this id.
    pub fn find(&self, id: i32) -> (r: Option<&RedirectRow>)
        ensures
            match r {
                Some(row) => exists|k: int|
                    #[trigger] redirect_at(self.rows@, id, k) && *row == self.rows@[k],
                None => forall|k: int| !(#[trigger] redirect_at(self.rows@, id, k)),
            },
    {
        let n = self.rows.len();
        let mut i: usize = 0;
        while i < n
            invariant
                i <= n,
                n == self.rows@.len(),
                forall|j: int| 0 <= j < i ==> (#[trigger] self.rows@[j]).id != id,
            decreases n - i,
        {
            if self.rows[i].id == id {
                assert(redirect_at(self.rows@, id, i as int));
                return Some(&self.rows[i]);
            }
            i += 1;
        }
        None
    }

    /// Changes the stored fields of the row with this id as one patch
    /// asks; an absent patch field changes nothing, and no other row
    /// is touched.
    pub fn apply_patch(&mut self, id: i32, destination: Option<String>)
        requires
            old(self).wf(),
        ensures
            final(self).wf(),
            final(self).next_id == old(self).next_id,
            final(self).rows@.len() == old(self).rows@.len(),
            forall|i: int|
                0 <= i < old(self).rows@.len() && old(self).rows@[i].id != id ==> final(self).rows@[i] == old(self).rows@[i],
            forall|i: int|
                0 <= i < old(self).rows@.len() && old(self).rows@[i].id == id ==> final(self).rows@[i] == (match destination {
                    Some(d) => RedirectRow { destination: d, ..old(self).rows@[i] },
                    None => old(self).rows@[i],
                }),
    {
        let d = match destination {
            None => {
                return ;
            },
            Some(d) => d,
        };
        let n = self.rows.len();
        let mut i: usize = 0;
        while i < n
            invariant
                i <= n,
                n == old(self).rows@.len(),
                self.rows@.len() == n,
                self.next_id == old(self).next_id,
                old(self).wf(),
                destination == Some(d),
                forall|j: int| 0 <= j < i ==> (#[trigger] old(self).rows@[j]).id != id,
                self.rows@ == old(self).rows@,
            decreases n - i,
        {
            if self.rows[i].id == id {
                self.rows[i].destination = d;
                proof {
                    assert forall|j: int|
                        0 <= j < old(self).rows@.len() && old(self).rows@[j].id == id implies
                        self.rows@[j] == (RedirectRow {
                            destination: d,
                            ..old(self).rows@[j]
                        }) by {
                        if j != i {
                            assert(old(self).rows@[j].id == old(self).rows@[i as int].id);
                        }
                    }
                }
                return ;
            }
            i += 1;
        }
    }

    /// Creates a redirect for this owner: no visits counted yet, no
    /// certificate, record unconfirmed.
    pub fn create(&mut self, host: String, destination: String, owner: i32) -> (r: i32)
        requires
            old(self).wf(),
            old(self).next_id < i32::MAX,
        ensures
            final(self).wf(),
            r == old(self).next_id,
            final(self).next_id == old(self).next_id + 1,
            final(self).rows@ == old(self).rows@.push(
                RedirectRow {
                    id: old(self).next_id,
                    host: host,
                    destination: destination,
                    owner: owner,
                    visits_total: None,
                    visits_month: None,
                    acme_failed: false,
                    tls_ready: false,
                    record_confirmed: false,
                },
            ),
    {
        let id = self.next_id;
        self.rows.push(
            RedirectRow {
                id,
                host,
                destination,
                owner,
                visits_total: None,
                visits_month: None,
                acme_failed: false,
                tls_ready: false,
                record_confirmed: false,
            },
        );
        self.next_id = self.next_id + 1;
        id
    }
}

/// Whether this caller may touch a redirect with this owner: login is
/// required, and anyone but the owner is turned away.
pub fn authorize_redirect_access(owner: i32, login: Option<UserID>) -> (r: Result<(), ApiError>)
    ensures
        r == (match login {
            None => Err::<(), ApiError>(ApiError::RedirectLoginRequired),
            Some(u) => if u.0 == owner {
                Ok::<(), ApiError>(())
            } else {
                Err::<(), ApiError>(ApiError::Forbidden)
            },
        }),
{
    match login {
        None => Err(ApiError::RedirectLoginRequired),
        Some(u) => {
            if u.to_raw() == owner {
                Ok(())
            } else {
                Err(ApiError::Forbidden)
            }
        },
    }
}

/// Reads one redirect for its owner.  The outcome is a total case
/// split: an absent row is exactly the 404 below; a present row with
/// an anonymous caller is exactly `RedirectLoginRequired`; with a
/// caller who is not the owner, exactly `Forbidden`; and the owner always gets
/// exactly the row's full view.
pub fn redirect_view(table: &RedirectTable, id: i32, login: Option<UserID>) -> (r: Result<
    RedirectDetail,
    ApiError,
>)
    requires
        table.wf(),
    ensures
        (forall|k: int| !(#[trigger] redirect_at(table.rows@, id, k))) <==> (r matches Err(e)
            && e matches ApiError::MissingResource(m) && m@ == "No such redirect"@),
        r is Ok <==> (match login {
            Some(u) => exists|k: int|
                #[trigger] redirect_at(table.rows@, id, k) && table.rows@[k].owner == u.0,
            None => false,
        }),
        r matches Ok(d) ==> exists|k: int|
            #[trigger] redirect_at(table.rows@, id, k) && login == Some(
                UserID(table.rows@[k].owner),
            ) && d.base == info_of(&table.rows@[k]) && d.record_confirmed
                == table.rows@[k].record_confirmed && d.tls == (if table.rows@[k].tls_ready {
                TlsState::Ready
            } else if table.rows@[k].acme_failed {
                TlsState::Error
            } else {
                TlsState::Pending
            }),
        r == Err::<RedirectDetail, ApiError>(ApiError::RedirectLoginRequired) <==> (login is None
            && exists|k: int| #[trigger] redirect_at(table.rows@, id, k)),
        r == Err::<RedirectDetail, ApiError>(ApiError::Forbidden) <==> (match login {
            Some(u) => exists|k: int|
                #[trigger] redirect_at(table.rows@, id, k) && table.rows@[k].owner != u.0,
            None => false,
        }),
{
    match table.find(id) {
        None => Err(ApiError::MissingResource(String::from_str("No such redirect"))),
        Some(row) => {
            match authorize_redirect_access(row.owner, login) {
                Err(e) => Err(e),
                Ok(_) => Ok(
                    RedirectDetail {
                        base: RedirectInfo {
                            id: row.id,
                            host: row.host.clone(),
                            destination: row.destination.clone(),
                            visits_total: row.visits_total,
                            visits_month: row.visits_month,
                        },
                        tls: tls_state_of(row.tls_ready, row.acme_failed),
                        record_confirmed: row.record_confirmed,
                    },
                ),
            }
        },
    }
}

/// Applies an owner's patch to one redirect.  The outcome is a total
/// case split: an absent row is exactly the 404 below; a present row
/// with an anonymous caller is exactly `RedirectLoginRequired`; with a caller
/// who is not the owner, exactly `Forbidden`; for the owner the call
/// always succeeds, the row is changed as the patch asks — an empty
/// patch changes nothing — and no other row is touched.
pub fn redirect_patch(
    table: &mut RedirectTable,
    id: i32,
    login: Option<UserID>,
    destination: Option<String>,
) -> (r: Result<(), ApiError>)
    requires
        old(table).wf(),
    ensures
        final(table).wf(),
        (forall|k: int| !(#[trigger] redirect_at(old(table).rows@, id, k))) <==> (r matches Err(e)
            && e matches ApiError::MissingResource(m) && m@ == "No such redirect"@),
        r is Err ==> final(table).rows@ == old(table).rows@,
        r == Err::<(), ApiError>(ApiError::RedirectLoginRequired) <==> (login is None
            && exists|k: int| #[trigger] redirect_at(old(table).rows@, id, k)),
        r == Err::<(), ApiError>(ApiError::Forbidden) <==> (match login {
            Some(u) => exists|k: int|
                #[trigger] redirect_at(old(table).rows@, id, k) && old(table).rows@[k].owner
                    != u.0,
            None => false,
        }),
        r is Ok <==> (match login {
            Some(u) => exists|k: int|
                #[trigger] redirect_at(old(table).rows@, id, k) && old(table).rows@[k].owner
                    == u.0,
            None => false,
        }),
        r is Ok ==> ({
            &&& login matches Some(u) && exists|k: int|
                #[trigger] redirect_at(old(table).rows@, id, k) && old(table).rows@[k].owner == u.0
            &&& final(table).rows@.len() == old(table).rows@.len()
            &&& forall|i: int|
                0 <= i < old(table).rows@.len() && old(table).rows@[i].id != id ==> final(table).rows@[i] == old(table).rows@[i]
            &&& forall|i: int|
                0 <= i < old(table).rows@.len() && old(table).rows@[i].id == id ==> final(table).rows@[i] == (match destination {
                    Some(d) => RedirectRow { destination: d, ..old(table).rows@[i] },
                    None => old(table).rows@[i],
                })
        }),
{
    let owner: i32 = match table.find(id) {
        None => {
            return Err(ApiError::MissingResource(String::from_str("No such redirect")));
        },
        Some(row) => row.owner,
    };
    match authorize_redirect_access(owner, login) {
        Err(e) => Err(e),
        Ok(_) => {
            table.apply_patch(id, destination);
            Ok(())
        },
    }
}

} // verus!
