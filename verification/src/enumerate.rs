//! The enumeration protocol: from the raw connector snapshots a device
//! query produced to the monitor descriptors handed to the windowing layer.
//!
//! Disconnected connectors are dropped entirely; the connected ones become
//! [`MonitorHandle`] values in the order the kernel reported them.
//! Enumeration is all-or-nothing: one failed connector query fails the
//! whole call, and no partial result is returned.

use vstd::prelude::*;

use crate::connector::ConnectionState;
use crate::connector::ConnectorInfo;
use crate::connector::ConnectorView;
use crate::connector::QueryError;
use crate::monitor::MonitorHandle;

verus! {

/// Whether a connector snapshot reports the connected state.
pub open spec fn is_connected(c: ConnectorView) -> bool {
    c.state == ConnectionState::Connected
}

/// The views of a sequence of monitor handles.
pub open spec fn monitor_views(ms: Seq<MonitorHandle>) -> Seq<ConnectorView> {
    ms.map_values(|m: MonitorHandle| m@)
}

/// The views of a sequence of connector snapshots.
pub open spec fn connector_views(cs: Seq<ConnectorInfo>) -> Seq<ConnectorView> {
    cs.map_values(|c: ConnectorInfo| c@)
}

/// The views of the snapshots behind a sequence of query results, assuming
/// every query succeeded.
pub open spec fn snapshot_views(rs: Seq<Result<ConnectorInfo, QueryError>>) -> Seq<
    ConnectorView,
> {
    rs.map_values(|x: Result<ConnectorInfo, QueryError>| (x->Ok_0)@)
}

/// The connected connectors of a sequence, in their original order.
pub open spec fn connected_views(cs: Seq<ConnectorView>) -> Seq<ConnectorView> {
    cs.filter(|c: ConnectorView| is_connected(c))
}

proof fn lemma_connected_views_take_step(s: Seq<ConnectorView>, i: int)
    requires
        0 <= i < s.len(),
    ensures
        connected_views(s.take(i + 1)) == (if is_connected(s[i]) {
            connected_views(s.take(i)).push(s[i])
        } else {
            connected_views(s.take(i))
        }),
{
    reveal(Seq::filter);
    assert(s.take(i + 1).drop_last() =~= s.take(i));
    assert(s.take(i + 1).last() == s[i]);
}

/// Wraps the connected connectors of a snapshot list as monitor handles,
/// in the order the kernel reported them. Disconnected connectors never
/// materialize as handles.
pub fn connected_outputs(connectors: Vec<ConnectorInfo>) -> (r: Vec<MonitorHandle>)
    ensures
        monitor_views(r@) == connected_views(connector_views(connectors@)),
        forall|i: int|
            0 <= i < r@.len() ==> (#[trigger] r@[i])@.state == ConnectionState::Connected,
{
    let ghost vs = connector_views(connectors@);
    let mut out: Vec<MonitorHandle> = Vec::new();
    let mut i: usize = 0;
    while i < connectors.len()
        invariant
            vs == connector_views(connectors@),
            0 <= i <= vs.len(),
            monitor_views(out@) == connected_views(vs.take(i as int)),
        decreases vs.len() - i,
    {
        proof {
            lemma_connected_views_take_step(vs, i as int);
        }
        if connectors[i].state == ConnectionState::Connected {
            let h = MonitorHandle::from_info(connectors[i].clone());
            out.push(h);
            proof {
                assert(monitor_views(out@) =~= connected_views(vs.take(i + 1)));
            }
        }
        i += 1;
    }
    proof {
        assert(vs.take(vs.len() as int) =~= vs);
        let p = |c: ConnectorView| is_connected(c);
        assert forall|k: int| 0 <= k < out@.len() implies (#[trigger] out@[k])@.state
            == ConnectionState::Connected by {
            assert(monitor_views(out@)[k] == out@[k]@);
            vs.lemma_filter_pred(p, k);
        }
    }
    out
}

/// Whether the result at position `j` is the first failed query of the
/// sequence, and carries the error `e`.
pub open spec fn is_first_error(
    rs: Seq<Result<ConnectorInfo, QueryError>>,
    j: int,
    e: QueryError,
) -> bool {
    &&& 0 <= j < rs.len()
    &&& rs[j] is Err
    &&& rs[j]->Err_0 == e
    &&& forall|k: int| 0 <= k < j ==> (#[trigger] rs[k]) is Ok
}

/// Collapses the outcome of the per-connector queries into one outcome for
/// the whole enumeration: all snapshots when every query succeeded, the
/// first error otherwise. Partial results are never returned.
pub fn complete_snapshot(results: Vec<Result<ConnectorInfo, QueryError>>) -> (r: Result<
    Vec<ConnectorInfo>,
    QueryError,
>)
    ensures
        r is Ok <==> (forall|j: int| 0 <= j < results@.len() ==> (#[trigger] results@[j]) is Ok),
        r matches Ok(v) ==> {
            &&& v@.len() == results@.len()
            &&& forall|j: int| 0 <= j < v@.len() ==> (#[trigger] v@[j])@ == (results@[j]->Ok_0)@
        },
        r is Err ==> exists|j: int| #[trigger] is_first_error(results@, j, r->Err_0),
{
    let mut out: Vec<ConnectorInfo> = Vec::new();
    let mut i: usize = 0;
    while i < results.len()
        invariant
            0 <= i <= results@.len(),
            out@.len() == i,
            forall|k: int| 0 <= k < i ==> (#[trigger] results@[k]) is Ok,
            forall|k: int| 0 <= k < i ==> (#[trigger] out@[k])@ == (results@[k]->Ok_0)@,
        decreases results@.len() - i,
    {
        match &results[i] {
            Ok(c) => {
                out.push(c.clone());
            },
            Err(e) => {
                let err = *e;
                proof {
                    assert(is_first_error(results@, i as int, err));
                    assert(Err::<Vec<ConnectorInfo>, QueryError>(err)->Err_0 == err);
                }
                return Err(err);
            },
        }
        i += 1;
    }
    Ok(out)
}

/// The whole enumeration protocol on the outcome of the per-connector
/// queries: when every query succeeded, the connected connectors become
/// monitor handles in kernel-reported order; one failed query fails the
/// call with the first error, and no partial result is returned.
pub fn enumerate_outputs(results: Vec<Result<ConnectorInfo, QueryError>>) -> (r: Result<
    Vec<MonitorHandle>,
    QueryError,
>)
    ensures
        r is Ok <==> (forall|j: int| 0 <= j < results@.len() ==> (#[trigger] results@[j]) is Ok),
        r matches Ok(v) ==> {
            &&& monitor_views(v@) == connected_views(snapshot_views(results@))
            &&& forall|i: int|
                0 <= i < v@.len() ==> (#[trigger] v@[i])@.state == ConnectionState::Connected
        },
        r is Err ==> exists|j: int| #[trigger] is_first_error(results@, j, r->Err_0),
{
    match complete_snapshot(results) {
        Ok(connectors) => {
            proof {
                assert(connector_views(connectors@) =~= snapshot_views(results@));
            }
            Ok(connected_outputs(connectors))
        },
        Err(e) => {
            proof {
                assert(Err::<Vec<MonitorHandle>, QueryError>(e)->Err_0 == e);
            }
            Err(e)
        },
    }
}

/// Whether a sequence of connector views is ordered by ascending interface
/// identifier.
pub open spec fn sorted_by_identifier(ms: Seq<ConnectorView>) -> bool {
    forall|i: int, j: int|
        #![trigger ms[i], ms[j]]
        0 <= i < j < ms.len() ==> ms[i].id <= ms[j].id
}

/// Reorders monitor handles by ascending interface identifier, keeping
/// exactly the given handles: the result holds the same snapshots with the
/// same multiplicity, ordered as the comparison operators order them.
pub fn sort_by_identifier(outputs: Vec<MonitorHandle>) -> (r: Vec<MonitorHandle>)
    ensures
        r@.len() == outputs@.len(),
        sorted_by_identifier(monitor_views(r@)),
        monitor_views(r@).to_multiset() == monitor_views(outputs@).to_multiset(),
{
    broadcast use vstd::seq_lib::group_to_multiset_ensures;

    let ghost orig = monitor_views(outputs@);
    let mut rest = outputs;
    let mut sorted: Vec<MonitorHandle> = Vec::new();
    while rest.len() > 0
        invariant
            sorted@.len() + rest@.len() == orig.len(),
            monitor_views(sorted@).to_multiset().add(monitor_views(rest@).to_multiset())
                == orig.to_multiset(),
            sorted_by_identifier(monitor_views(sorted@)),
            forall|i: int, j: int|
                #![trigger sorted@[i], rest@[j]]
                0 <= i < sorted@.len() && 0 <= j < rest@.len() ==> sorted@[i]@.id <= rest@[j]@.id,
        decreases rest@.len(),
    {
        let mut m: usize = 0;
        let mut k: usize = 1;
        while k < rest.len()
            invariant
                rest@.len() > 0,
                0 <= m < k <= rest@.len(),
                forall|j: int| 0 <= j < k ==> rest@[m as int]@.id <= (#[trigger] rest@[j])@.id,
            decreases rest@.len() - k,
        {
            if rest[k].native_identifier() < rest[m].native_identifier() {
                m = k;
            }
            k += 1;
        }
        let ghost rest_before = rest@;
        let ghost sorted_before = sorted@;
        let x = rest.remove(m);
        sorted.push(x);
        proof {
            broadcast use vstd::seq_lib::group_to_multiset_ensures;

            let sms = monitor_views(sorted_before).to_multiset();
            let rms = monitor_views(rest_before).to_multiset();
            assert(monitor_views(rest@) =~= monitor_views(rest_before).remove(m as int));
            assert(monitor_views(sorted@) =~= monitor_views(sorted_before).push(x@));
            assert(monitor_views(rest_before)[m as int] == x@);
            assert(monitor_views(rest_before).contains(x@));
            assert(rms.count(x@) > 0);
            assert(monitor_views(sorted@).to_multiset() =~= sms.insert(x@));
            assert(monitor_views(rest@).to_multiset() =~= rms.remove(x@));
            assert(monitor_views(sorted@).to_multiset().add(monitor_views(rest@).to_multiset())
                =~= sms.add(rms));
        }
    }
    proof {
        assert(monitor_views(sorted@).to_multiset().add(monitor_views(rest@).to_multiset())
            =~= monitor_views(sorted@).to_multiset());
    }
    sorted
}

/// Whether a session's connector list assigns identifiers faithfully: any
/// two entries with the same interface identifier carry the same
/// control-plane data. The kernel keeps each connector's identifier stable
/// and unique while the device is open, so the list one open session
/// reports has this shape.
pub open spec fn session_consistent(s: Seq<ConnectorView>) -> bool {
    forall|i: int, j: int|
        0 <= i < s.len() && 0 <= j < s.len() && (#[trigger] s[i]).id == (#[trigger] s[j]).id
            ==> s[i] == s[j]
}

/// Every entry of the connected sublist comes from the full list.
pub proof fn lemma_connected_views_from_session(s: Seq<ConnectorView>, k: int)
    requires
        0 <= k < connected_views(s).len(),
    ensures
        s.contains(connected_views(s)[k]),
    decreases s.len(),
{
    reveal(Seq::filter);
    let p = |c: ConnectorView| is_connected(c);
    if s.len() == 0 {
        assert(s.filter(p) =~= Seq::<ConnectorView>::empty());
    } else {
        let sub = s.drop_last().filter(p);
        if k < sub.len() {
            lemma_connected_views_from_session(s.drop_last(), k);
            let w = choose|i: int| 0 <= i < s.drop_last().len() && s.drop_last()[i] == sub[k];
            assert(s[w] == sub[k]);
        } else {
            assert(s[s.len() - 1] == connected_views(s)[k]);
        }
    }
}

/// Within one open session the interface identifier is a faithful proxy
/// for structural equality: two monitor handles whose snapshots come from
/// the session's connector list are equal exactly when their identifiers
/// are equal.
pub proof fn lemma_identifier_faithful(s: Seq<ConnectorView>, a: MonitorHandle, b: MonitorHandle)
    requires
        session_consistent(s),
        s.contains(a@),
        s.contains(b@),
    ensures
        a@.id == b@.id <==> a@ == b@,
{
    let i = choose|i: int| 0 <= i < s.len() && s[i] == a@;
    let j = choose|j: int| 0 <= j < s.len() && s[j] == b@;
    assert(s[i] == a@ && s[j] == b@);
}

/// For the handles one enumeration produced, the identifier is a faithful
/// proxy for equality outright: when the session's connector list is
/// consistent, two enumerated handles are equal exactly when their
/// identifiers are equal.
pub proof fn lemma_enumeration_identifier_faithful(
    cs: Seq<ConnectorView>,
    ms: Seq<MonitorHandle>,
    k1: int,
    k2: int,
)
    requires
        session_consistent(cs),
        monitor_views(ms) == connected_views(cs),
        0 <= k1 < ms.len(),
        0 <= k2 < ms.len(),
    ensures
        ms[k1]@.id == ms[k2]@.id <==> ms[k1]@ == ms[k2]@,
{
    assert(monitor_views(ms)[k1] == ms[k1]@);
    assert(monitor_views(ms)[k2] == ms[k2]@);
    lemma_connected_views_from_session(cs, k1);
    lemma_connected_views_from_session(cs, k2);
    lemma_identifier_faithful(cs, ms[k1], ms[k2]);
}

} // verus!
