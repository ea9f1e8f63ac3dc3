//! C-FIND handling without an external index: the fixture records the
//! service answers from, and the matching rule a query's PatientID and
//! PatientsName select them by.

use vstd::prelude::*;

use crate::bytes::bytes_eq_vec;
use crate::values::{spec_split_on, split_on};

verus! {

/// One queryable record: a patient id and a patient name.
#[derive(Clone, Debug, PartialEq)]
pub struct CFindRecord {
    pub patient_id: Vec<u8>,
    pub patient_name: Vec<u8>,
}


/// The hierarchy level a query asks its matches to be grouped at.
#[derive(Clone, Copy, PartialEq, Eq, Structural, Debug)]
pub enum QueryLevel {
    Patient,
    Study,
    Series,
}

/// One series-level record with the identifiers the grouping levels
/// key on.
#[derive(Clone, Debug, PartialEq)]
pub struct GroupRecord {
    pub patient_id: Vec<u8>,
    pub study_uid: Vec<u8>,
    pub series_uid: Vec<u8>,
}

/// The identifier a record is grouped by at the given level.
pub open spec fn spec_level_key(level: QueryLevel, r: GroupRecord) -> Seq<u8> {
    match level {
        QueryLevel::Patient => r.patient_id@,
        QueryLevel::Study => r.study_uid@,
        QueryLevel::Series => r.series_uid@,
    }
}

/// Whether some group in `r` carries the key `k`.
pub open spec fn spec_has_group(r: Seq<(Vec<u8>, Vec<GroupRecord>)>, k: Seq<u8>) -> bool {
    exists|g: int| 0 <= g < r.len() && (#[trigger] r[g]).0@ == k
}

/// The records of `rs` whose level key is `k`, in their input order.
pub open spec fn spec_with_key(level: QueryLevel, rs: Seq<GroupRecord>, k: Seq<u8>) -> Seq<
    GroupRecord,
>
    decreases rs.len(),
{
    if rs.len() == 0 {
        Seq::empty()
    } else {
        let head = spec_with_key(level, rs.drop_last(), k);
        if spec_level_key(level, rs.last()) == k {
            head.push(rs.last())
        } else {
            head
        }
    }
}

/// Grouping sees no record under a key that none of the records
/// carries.
proof fn lemma_with_key_empty(level: QueryLevel, rs: Seq<GroupRecord>, k: Seq<u8>)
    requires
        forall|i: int| 0 <= i < rs.len() ==> spec_level_key(level, #[trigger] rs[i]) != k,
    ensures
        spec_with_key(level, rs, k) == Seq::<GroupRecord>::empty(),
    decreases rs.len(),
{
    if rs.len() > 0 {
        assert(forall|i: int|
            0 <= i < rs.drop_last().len() ==> spec_level_key(
                level,
                #[trigger] rs.drop_last()[i],
            ) != k);
        lemma_with_key_empty(level, rs.drop_last(), k);
    }
}

/// The level key of the given record, as a fresh value.
fn level_key(level: QueryLevel, r: &GroupRecord) -> (k: Vec<u8>)
    ensures
        k@ == spec_level_key(level, *r),
{
    match level {
        QueryLevel::Patient => crate::bytes::clone_bytes(&r.patient_id),
        QueryLevel::Study => crate::bytes::clone_bytes(&r.study_uid),
        QueryLevel::Series => crate::bytes::clone_bytes(&r.series_uid),
    }
}

/// Groups series-level records by the identifier the query level
/// selects: one group per distinct key, holding exactly the records
/// that carry it, in their input order; groups appear in the order
/// their keys first occur.
pub fn group_records(level: QueryLevel, records: Vec<GroupRecord>) -> (r: Vec<
    (Vec<u8>, Vec<GroupRecord>),
>)
    ensures
        forall|g: int, h: int|
            0 <= g < h < r@.len() ==> (#[trigger] r@[g]).0@ != (#[trigger] r@[h]).0@,
        forall|g: int|
            0 <= g < r@.len() ==> (#[trigger] r@[g]).1@ == spec_with_key(
                level,
                records@,
                r@[g].0@,
            ) && r@[g].1@.len() > 0,
        forall|i: int|
            0 <= i < records@.len() ==> spec_has_group(
                r@,
                spec_level_key(level, #[trigger] records@[i]),
            ),
{
    let ghost all = records@;
    let mut rest = records;
    let n0: usize = rest.len();
    let mut out: Vec<(Vec<u8>, Vec<GroupRecord>)> = Vec::new();
    let mut taken: usize = 0;
    loop
        invariant
            all.len() == n0 as int,
            taken + rest@.len() == n0,
            rest@ == all.subrange(taken as int, n0 as int),
            forall|g: int, h: int|
                0 <= g < h < out@.len() ==> (#[trigger] out@[g]).0@ != (#[trigger] out@[h]).0@,
            forall|g: int|
                0 <= g < out@.len() ==> (#[trigger] out@[g]).1@ == spec_with_key(
                    level,
                    all.subrange(0, taken as int),
                    out@[g].0@,
                ) && out@[g].1@.len() > 0,
            forall|i: int|
                0 <= i < taken ==> spec_has_group(
                    out@,
                    spec_level_key(level, #[trigger] all[i]),
                ),
        ensures
            taken == n0,
        decreases n0 - taken,
    {
        if rest.len() == 0 {
            break ;
        }
        let rec: GroupRecord = rest.remove(0);
        let key: Vec<u8> = level_key(level, &rec);
        let ghost pre = all.subrange(0, taken as int);
        let ghost cur = all.subrange(0, taken + 1);
        proof {
            assert(rec == all[taken as int]);
            assert(cur.drop_last() =~= pre);
            assert(cur.last() == all[taken as int]);
            assert(forall|k: Seq<u8>|
                spec_level_key(level, all[taken as int]) != k ==> #[trigger] spec_with_key(
                    level,
                    cur,
                    k,
                ) == spec_with_key(level, pre, k));
        }
        let n: usize = out.len();
        let mut gi: usize = 0;
        let mut found: bool = false;
        loop
            invariant
                0 <= gi <= n,
                n == out@.len(),
                key@ == spec_level_key(level, rec),
                !found ==> forall|g: int| 0 <= g < gi ==> (#[trigger] out@[g]).0@ != key@,
                found ==> gi < n && out@[gi as int].0@ == key@,
            ensures
                found ==> gi < n && out@[gi as int].0@ == key@,
                !found ==> forall|g: int| 0 <= g < n ==> (#[trigger] out@[g]).0@ != key@,
            decreases n - gi + (if found {
                0int
            } else {
                1int
            }),
        {
            if gi >= n {
                break ;
            }
            if bytes_eq_vec(&out[gi].0, &key) {
                found = true;
                break ;
            }
            gi += 1;
        }
        let ghost out_before = out@;
        if found {
            let ghost old_out = out@;
            let grp: &mut (Vec<u8>, Vec<GroupRecord>) = &mut out[gi];
            grp.1.push(rec);
            proof {
                assert(out@[gi as int].1@ == old_out[gi as int].1@.push(rec));
                assert(out@[gi as int].0@ == old_out[gi as int].0@);
                assert(out@[gi as int].1@ == spec_with_key(level, cur, out@[gi as int].0@));
                assert(forall|g: int|
                    0 <= g < out@.len() && g != gi ==> #[trigger] out@[g] == old_out[g]);
            }
        } else {
            proof {
                assert forall|i: int| 0 <= i < taken implies spec_level_key(
                    level,
                    #[trigger] all[i],
                ) != key@ by {
                    if spec_level_key(level, all[i]) == key@ {
                        let g = choose|g: int|
                            0 <= g < out@.len() && (#[trigger] out@[g]).0@ == spec_level_key(
                                level,
                                all[i],
                            );
                        assert(out@[g].0@ != key@);
                    }
                }
                lemma_with_key_empty(level, pre, key@);
            }
            let mut members: Vec<GroupRecord> = Vec::new();
            members.push(rec);
            out.push((key, members));
            proof {
                assert(out@.last().1@ =~= spec_with_key(level, cur, out@.last().0@));
            }
        }
        proof {
            assert forall|i: int| 0 <= i <= taken implies spec_has_group(
                out@,
                spec_level_key(level, #[trigger] all[i]),
            ) by {
                if i == taken {
                    if found {
                        assert(out@[gi as int].0@ == spec_level_key(level, all[i]));
                    } else {
                        assert(out@[out@.len() - 1].0@ == spec_level_key(level, all[i]));
                    }
                } else {
                    assert(spec_has_group(out_before, spec_level_key(level, all[i])));
                    let g0 = choose|g: int|
                        0 <= g < out_before.len() && (#[trigger] out_before[g]).0@
                            == spec_level_key(level, all[i]);
                    assert(out@[g0].0@ == out_before[g0].0@);
                }
            }
        }
        taken += 1;
        proof {
            assert(rest@ =~= all.subrange(taken as int, n0 as int));
        }
    }
    proof {
        assert(all.subrange(0, all.len() as int) =~= all);
        assert forall|i: int| 0 <= i < records@.len() implies spec_has_group(
            out@,
            spec_level_key(level, #[trigger] records@[i]),
        ) by {
            assert(records@[i] == all[i]);
            assert(spec_has_group(out@, spec_level_key(level, all[i])));
        }
    }
    out
}

/// Whether `p` is a prefix of `s`.
pub open spec fn spec_is_prefix(s: Seq<u8>, p: Seq<u8>) -> bool {
    p.len() <= s.len() && s.subrange(0, p.len() as int) == p
}

/// Whether `p` is a suffix of `s`.
pub open spec fn spec_is_suffix(s: Seq<u8>, p: Seq<u8>) -> bool {
    p.len() <= s.len() && s.subrange(s.len() - p.len(), s.len() as int) == p
}

/// Whether `p` is a prefix of `s`.
pub fn is_prefix(s: &[u8], p: &[u8]) -> (r: bool)
    ensures
        r == spec_is_prefix(s@, p@),
{
    if p.len() > s.len() {
        return false;
    }
    let head: &[u8] = vstd::slice::slice_subrange(s, 0, p.len());
    crate::bytes::bytes_eq(head, p)
}

/// Whether `p` is a suffix of `s`.
pub fn is_suffix(s: &[u8], p: &[u8]) -> (r: bool)
    ensures
        r == spec_is_suffix(s@, p@),
{
    if p.len() > s.len() {
        return false;
    }
    let tail: &[u8] = vstd::slice::slice_subrange(s, s.len() - p.len(), s.len());
    crate::bytes::bytes_eq(tail, p)
}

/// Whether a non-empty query value matches an id: as its prefix or its
/// suffix. An empty query value matches nothing.
pub open spec fn spec_id_match(id: Seq<u8>, q: Seq<u8>) -> bool {
    q.len() > 0 && (spec_is_prefix(id, q) || spec_is_suffix(id, q))
}

/// Whether a non-empty query value matches any caret-separated part of
/// a person name, as that part's prefix or suffix.
pub open spec fn spec_name_match(name: Seq<u8>, q: Seq<u8>) -> bool {
    q.len() > 0 && exists|i: int|
        0 <= i < spec_split_on(name, 0x5E).len() && spec_id_match(
            #[trigger] spec_split_on(name, 0x5E)[i],
            q,
        )
}

/// Whether a record answers a query: its id matches the queried id, or
/// some part of its name matches the queried name.
pub open spec fn spec_record_match(
    id: Seq<u8>,
    name: Seq<u8>,
    q_pid: Seq<u8>,
    q_name: Seq<u8>,
) -> bool {
    spec_id_match(id, q_pid) || spec_name_match(name, q_name)
}

/// Whether a record answers a query.
pub fn record_matches(id: &Vec<u8>, name: &Vec<u8>, q_pid: &Vec<u8>, q_name: &Vec<u8>) -> (r:
    bool)
    ensures
        r == spec_record_match(id@, name@, q_pid@, q_name@),
{
    let pid_match: bool = q_pid.len() > 0 && (is_prefix(id.as_slice(), q_pid.as_slice())
        || is_suffix(id.as_slice(), q_pid.as_slice()));
    if pid_match {
        return true;
    }
    if q_name.len() == 0 {
        return false;
    }
    let parts = split_on(name.as_slice(), 0x5E);
    let n: usize = parts.len();
    let mut i: usize = 0;
    while i < n
        invariant
            0 <= i <= n,
            n == spec_split_on(name@, 0x5E).len(),
            parts@.len() == n,
            forall|k: int| 0 <= k < n ==> parts@[k]@ == spec_split_on(name@, 0x5E)[k],
            q_name@.len() > 0,
            forall|k: int| 0 <= k < i ==> !spec_id_match(#[trigger] spec_split_on(name@, 0x5E)[k], q_name@),
        decreases n - i,
    {
        if is_prefix(parts[i].as_slice(), q_name.as_slice()) || is_suffix(
            parts[i].as_slice(),
            q_name.as_slice(),
        ) {
            assert(spec_id_match(spec_split_on(name@, 0x5E)[i as int], q_name@));
            return true;
        }
        i += 1;
    }
    false
}

/// The built-in fixture: three patient records.
pub fn dummy_records() -> (r: Vec<CFindRecord>)
    ensures
        r@.len() == 3,
        r@[0].patient_id@ == spec_fixture_pid_1() && r@[0].patient_name@ == spec_fixture_name_1(),
        r@[1].patient_id@ == spec_fixture_pid_2() && r@[1].patient_name@ == spec_fixture_name_2(),
        r@[2].patient_id@ == spec_fixture_pid_3() && r@[2].patient_name@ == spec_fixture_name_3(),
{
    let pid1: Vec<u8> = vec![0x34u8, 0x37, 0x37, 0x2D, 0x30, 0x31, 0x30, 0x31];
    let name1: Vec<u8> = vec![0x53u8, 0x4E, 0x4F, 0x57, 0x5E, 0x4A, 0x4F, 0x4E];
    let pid2: Vec<u8> = vec![0x34u8, 0x37, 0x37, 0x2D, 0x30, 0x31, 0x38, 0x33];
    let name2: Vec<u8> = vec![0x53u8, 0x54, 0x41, 0x52, 0x4B, 0x5E, 0x52, 0x4F, 0x42];
    let pid3: Vec<u8> = vec![0x32u8, 0x31, 0x32, 0x2D, 0x30, 0x33, 0x30, 0x39];
    let name3: Vec<u8> = vec![
        0x4Du8, 0x41, 0x52, 0x54, 0x45, 0x4C, 0x4C, 0x5E, 0x4F, 0x42, 0x45, 0x52, 0x59, 0x4E,
    ];
    proof {
        assert(pid1@ =~= spec_fixture_pid_1());
        assert(name1@ =~= spec_fixture_name_1());
        assert(pid2@ =~= spec_fixture_pid_2());
        assert(name2@ =~= spec_fixture_name_2());
        assert(pid3@ =~= spec_fixture_pid_3());
        assert(name3@ =~= spec_fixture_name_3());
    }
    let mut r: Vec<CFindRecord> = Vec::new();
    r.push(CFindRecord { patient_id: pid1, patient_name: name1 });
    r.push(CFindRecord { patient_id: pid2, patient_name: name2 });
    r.push(CFindRecord { patient_id: pid3, patient_name: name3 });
    r
}

/// The fixture id "477-0101".
pub open spec fn spec_fixture_pid_1() -> Seq<u8> {
    seq![0x34u8, 0x37, 0x37, 0x2D, 0x30, 0x31, 0x30, 0x31]
}

/// The fixture name "SNOW^JON".
pub open spec fn spec_fixture_name_1() -> Seq<u8> {
    seq![0x53u8, 0x4E, 0x4F, 0x57, 0x5E, 0x4A, 0x4F, 0x4E]
}

/// The fixture id "477-0183".
pub open spec fn spec_fixture_pid_2() -> Seq<u8> {
    seq![0x34u8, 0x37, 0x37, 0x2D, 0x30, 0x31, 0x38, 0x33]
}

/// The fixture name "STARK^ROB".
pub open spec fn spec_fixture_name_2() -> Seq<u8> {
    seq![0x53u8, 0x54, 0x41, 0x52, 0x4B, 0x5E, 0x52, 0x4F, 0x42]
}

/// The fixture id "212-0309".
pub open spec fn spec_fixture_pid_3() -> Seq<u8> {
    seq![0x32u8, 0x31, 0x32, 0x2D, 0x30, 0x33, 0x30, 0x39]
}

/// The fixture name "MARTELL^OBERYN".
pub open spec fn spec_fixture_name_3() -> Seq<u8> {
    seq![0x4Du8, 0x41, 0x52, 0x54, 0x45, 0x4C, 0x4C, 0x5E, 0x4F, 0x42, 0x45, 0x52, 0x59, 0x4E]
}

/// The matching fixture records for a query, in fixture order: a
/// record appears exactly when the queried PatientID matches its id or
/// the queried PatientsName matches a part of its name.
pub fn create_dummy_results(q_pid: &Vec<u8>, q_name: &Vec<u8>) -> (r: Vec<CFindRecord>)
    ensures
        r@.len() <= 3,
        r@.map_values(|c: CFindRecord| (c.patient_id@, c.patient_name@)) == dummy_filtered_views(
            q_pid@,
            q_name@,
        ),
{
    let records = dummy_records();
    let mut r: Vec<CFindRecord> = Vec::new();
    let m1: bool = record_matches(&records[0].patient_id, &records[0].patient_name, q_pid, q_name);
    if m1 {
        let rec = &records[0];
        r.push(
            CFindRecord {
                patient_id: crate::bytes::clone_bytes(&rec.patient_id),
                patient_name: crate::bytes::clone_bytes(&rec.patient_name),
            },
        );
    }
    let m2: bool = record_matches(&records[1].patient_id, &records[1].patient_name, q_pid, q_name);
    if m2 {
        let rec = &records[1];
        r.push(
            CFindRecord {
                patient_id: crate::bytes::clone_bytes(&rec.patient_id),
                patient_name: crate::bytes::clone_bytes(&rec.patient_name),
            },
        );
    }
    let m3: bool = record_matches(&records[2].patient_id, &records[2].patient_name, q_pid, q_name);
    if m3 {
        let rec = &records[2];
        r.push(
            CFindRecord {
                patient_id: crate::bytes::clone_bytes(&rec.patient_id),
                patient_name: crate::bytes::clone_bytes(&rec.patient_name),
            },
        );
    }
    assert(r@.map_values(|c: CFindRecord| (c.patient_id@, c.patient_name@)) =~= dummy_filtered_views(
        q_pid@,
        q_name@,
    ));
    r
}

/// The views of the matching fixture records, in fixture order.
pub open spec fn dummy_filtered_views(q_pid: Seq<u8>, q_name: Seq<u8>) -> Seq<(Seq<u8>, Seq<u8>)> {
    (if spec_record_match(spec_fixture_pid_1(), spec_fixture_name_1(), q_pid, q_name) {
        seq![(spec_fixture_pid_1(), spec_fixture_name_1())]
    } else {
        Seq::empty()
    }) + (if spec_record_match(spec_fixture_pid_2(), spec_fixture_name_2(), q_pid, q_name) {
        seq![(spec_fixture_pid_2(), spec_fixture_name_2())]
    } else {
        Seq::empty()
    }) + (if spec_record_match(spec_fixture_pid_3(), spec_fixture_name_3(), q_pid, q_name) {
        seq![(spec_fixture_pid_3(), spec_fixture_name_3())]
    } else {
        Seq::empty()
    })
}

} // verus!
