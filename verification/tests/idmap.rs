use coretoolbox::idmap::uid_mapping;
use coretoolbox::idmap::UidRange;
use coretoolbox::names::MAX_UID_COUNT;

#[test]
fn root_needs_no_runs() {
    assert_eq!(uid_mapping(0), Vec::new());
}

#[test]
fn a_user_gets_three_runs() {
    assert_eq!(
        uid_mapping(1000),
        vec![
            UidRange { inside: 1000, outside: 0, count: 1 },
            UidRange { inside: 0, outside: 1, count: 1000 },
            UidRange { inside: 1001, outside: 1001, count: 64536 },
        ]
    );
}

#[test]
fn runs_at_the_edges() {
    assert_eq!(
        uid_mapping(1),
        vec![
            UidRange { inside: 1, outside: 0, count: 1 },
            UidRange { inside: 0, outside: 1, count: 1 },
            UidRange { inside: 2, outside: 2, count: 65535 },
        ]
    );
    assert_eq!(
        uid_mapping(MAX_UID_COUNT),
        vec![
            UidRange { inside: 65536, outside: 0, count: 1 },
            UidRange { inside: 0, outside: 1, count: 65536 },
            UidRange { inside: 65537, outside: 65537, count: 0 },
        ]
    );
}

#[test]
fn flags_of_the_runs() {
    let flags: Vec<String> = uid_mapping(1000).iter().map(|r| r.flag()).collect();
    assert_eq!(flags, vec!["--uidmap=1000:0:1", "--uidmap=0:1:1000", "--uidmap=1001:1001:64536"]);
    assert_eq!(UidRange { inside: 0, outside: 0, count: 0 }.flag(), "--uidmap=0:0:0");
}

#[test]
fn every_id_is_covered_once_and_stands_for_its_own() {
    for uid in [1u32, 2, 1000, 65535, 65536] {
        let ranges = uid_mapping(uid);
        let mut seen = vec![false; 65537];
        let mut id: u32 = 0;
        while id <= MAX_UID_COUNT {
            let covering: Vec<&UidRange> = ranges
                .iter()
                .filter(|r| r.inside <= id && (id as u64) < r.inside as u64 + r.count as u64)
                .collect();
            assert_eq!(covering.len(), 1);
            let outside = covering[0].outside + (id - covering[0].inside);
            let expected = if id == uid {
                0
            } else if id < uid {
                id + 1
            } else {
                id
            };
            assert_eq!(outside, expected);
            assert!(!seen[outside as usize]);
            seen[outside as usize] = true;
            id += 1;
        }
        assert!(seen.iter().all(|s| *s));
        assert!(ranges.iter().all(|r| !(r.inside <= 65537 && 65537 < r.inside as u64 + r.count as u64)));
    }
}
