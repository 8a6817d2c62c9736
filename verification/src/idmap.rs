//! How user ids inside the container stand for user ids outside of it.

use vstd::prelude::*;
use crate::names::MAX_UID_COUNT;
use crate::text::decimal;
use crate::text::decimal_string;

verus! {

/// A run of `count` ids: the ids from `inside` on, as seen in the container,
/// stand for the ids from `outside` on in the invoking user's own namespace,
/// where id 0 is the invoking user.
#[derive(Clone, Copy, Debug, PartialEq, Eq, Structural)]
pub struct UidRange {
    pub inside: u32,
    pub outside: u32,
    pub count: u32,
}

impl UidRange {
    /// Whether the id `id` of the container lies in this run.
    pub open spec fn covers(self, id: int) -> bool {
        self.inside <= id < self.inside + self.count
    }

    /// The id outside that `id` stands for; meaningful where the run covers `id`.
    pub open spec fn image_of(self, id: int) -> int {
        self.outside + (id - self.inside)
    }

    /// The flag that hands this run to the container runtime.
    pub open spec fn flag_text(self) -> Seq<char> {
        "--uidmap="@ + decimal(self.inside as nat) + ":"@ + decimal(self.outside as nat) + ":"@
            + decimal(self.count as nat)
    }

    /// The flag that hands this run to the container runtime.
    pub fn flag(&self) -> (r: String)
        ensures
            r@ == self.flag_text(),
    {
        let mut r = String::from_str("--uidmap=");
        r.append(decimal_string(self.inside).as_str());
        r.append(":");
        r.append(decimal_string(self.outside).as_str());
        r.append(":");
        r.append(decimal_string(self.count).as_str());
        r
    }
}

/// The runs for an invoking user `uid`. Root needs none. Any other user gets
/// three: its own id, the ids below it, and the ids above it.
pub open spec fn uid_ranges(uid: u32) -> Seq<UidRange>
    recommends
        uid <= MAX_UID_COUNT,
{
    if uid == 0 {
        Seq::empty()
    } else {
        seq![
            UidRange { inside: uid, outside: 0, count: 1 },
            UidRange { inside: 0, outside: 1, count: uid },
            UidRange {
                inside: (uid + 1) as u32,
                outside: (uid + 1) as u32,
                count: (MAX_UID_COUNT - uid) as u32,
            },
        ]
    }
}

/// The runs for an invoking user `uid`.
pub fn uid_mapping(uid: u32) -> (ranges: Vec<UidRange>)
    requires
        uid <= MAX_UID_COUNT,
    ensures
        ranges@ == uid_ranges(uid),
{
    let mut ranges: Vec<UidRange> = Vec::new();
    if uid != 0 {
        ranges.push(UidRange { inside: uid, outside: 0, count: 1 });
        ranges.push(UidRange { inside: 0, outside: 1, count: uid });
        ranges.push(UidRange { inside: uid + 1, outside: uid + 1, count: MAX_UID_COUNT - uid });
    }
    assert(ranges@ =~= uid_ranges(uid));
    ranges
}

/// How many of `ranges` cover the id `id`.
pub open spec fn cover_count(ranges: Seq<UidRange>, id: int) -> nat
    decreases ranges.len(),
{
    if ranges.len() == 0 {
        0
    } else {
        cover_count(ranges.drop_last(), id) + if ranges.last().covers(id) {
            1nat
        } else {
            0nat
        }
    }
}

/// What the id `id` of the container stands for under the runs of `uid`:
/// the user's own id stands for 0, the ids below it move up by one, the ids
/// above it stay.
pub open spec fn outside_of(uid: u32, id: int) -> int {
    if id == uid {
        0
    } else if id < uid {
        id + 1
    } else {
        id
    }
}

/// The id of the container that stands for the id `o` outside: the inverse
/// of `outside_of`.
pub open spec fn inside_of(uid: u32, o: int) -> int {
    if o == 0 {
        uid as int
    } else if o <= uid {
        o - 1
    } else {
        o
    }
}

/// For an invoking user other than root, the three runs cover each id from 0
/// to `MAX_UID_COUNT` exactly once and no other id, and a run that covers an
/// id sends it where `outside_of` says. Two ids never stand for the same id
/// outside, and every id from 0 to `MAX_UID_COUNT` outside is stood for.
pub proof fn lemma_uid_ranges_partition(uid: u32)
    requires
        0 < uid <= MAX_UID_COUNT,
    ensures
        forall|id: int|
            0 <= id <= MAX_UID_COUNT ==> #[trigger] cover_count(uid_ranges(uid), id) == 1,
        forall|id: int|
            id < 0 || id > MAX_UID_COUNT ==> #[trigger] cover_count(uid_ranges(uid), id) == 0,
        forall|i: int, id: int|
            0 <= i < 3 && #[trigger] uid_ranges(uid)[i].covers(id) ==> uid_ranges(uid)[i].image_of(
                id,
            ) == outside_of(uid, id),
        forall|a: int, b: int|
            0 <= a <= MAX_UID_COUNT && 0 <= b <= MAX_UID_COUNT && #[trigger] outside_of(uid, a)
                == #[trigger] outside_of(uid, b) ==> a == b,
        forall|o: int|
            0 <= o <= MAX_UID_COUNT ==> 0 <= #[trigger] inside_of(uid, o) <= MAX_UID_COUNT
                && outside_of(uid, inside_of(uid, o)) == o,
{
    let r = uid_ranges(uid);
    assert forall|id: int| true implies #[trigger] cover_count(r, id) == (if 0 <= id
        <= MAX_UID_COUNT {
        1nat
    } else {
        0nat
    }) by {
        let r2 = r.drop_last();
        let r1 = r2.drop_last();
        let r0 = r1.drop_last();
        assert(r0.len() == 0);
        assert(r1.last() == r[0]);
        assert(r2.last() == r[1]);
        assert(r.last() == r[2]);
        assert(cover_count(r0, id) == 0);
        assert(cover_count(r1, id) == cover_count(r0, id) + if r[0].covers(id) {
            1nat
        } else {
            0nat
        });
        assert(cover_count(r2, id) == cover_count(r1, id) + if r[1].covers(id) {
            1nat
        } else {
            0nat
        });
    }
}

} // verus!
