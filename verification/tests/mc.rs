use rand::SeedableRng;
use rand::rngs::StdRng;

use lumol::mc::eligible_count;
use lumol::mc::nth_eligible;
use lumol::mc::select_molecule;
use lumol::mc::MoveStatistics;

#[test]
fn counting_eligible_molecules() {
    let moltypes = vec![7, 3, 7, 7, 5];
    assert_eq!(eligible_count(&moltypes, None), 5);
    assert_eq!(eligible_count(&moltypes, Some(7)), 3);
    assert_eq!(eligible_count(&moltypes, Some(5)), 1);
    assert_eq!(eligible_count(&moltypes, Some(9)), 0);
    assert_eq!(eligible_count(&Vec::new(), None), 0);
}

#[test]
fn nth_eligible_molecule() {
    let moltypes = vec![7, 3, 7, 7, 5];
    assert_eq!(nth_eligible(&moltypes, Some(7), 0), Some(0));
    assert_eq!(nth_eligible(&moltypes, Some(7), 1), Some(2));
    assert_eq!(nth_eligible(&moltypes, Some(7), 2), Some(3));
    assert_eq!(nth_eligible(&moltypes, Some(7), 3), None);
    assert_eq!(nth_eligible(&moltypes, None, 4), Some(4));
    assert_eq!(nth_eligible(&moltypes, Some(9), 0), None);
}

#[test]
fn selection_respects_the_filter() {
    let moltypes = vec![7, 3, 7, 7, 5];
    let mut rng = StdRng::seed_from_u64(42);
    for _ in 0..100 {
        let selected = select_molecule(&moltypes, Some(7), &mut rng);
        let id = selected.expect("an eligible molecule exists");
        assert_eq!(moltypes[id], 7);
    }
    for _ in 0..100 {
        let selected = select_molecule(&moltypes, None, &mut rng);
        assert!(selected.expect("any molecule is eligible") < moltypes.len());
    }
}

#[test]
fn selection_is_deterministic_given_a_seed() {
    let moltypes = vec![7, 3, 7, 7, 5, 3, 3, 7];
    let mut first = StdRng::seed_from_u64(7);
    let mut second = StdRng::seed_from_u64(7);
    for _ in 0..50 {
        assert_eq!(
            select_molecule(&moltypes, Some(3), &mut first),
            select_molecule(&moltypes, Some(3), &mut second),
        );
    }
}

#[test]
fn acceptance_statistics() {
    let mut statistics = MoveStatistics::new();
    assert_eq!(statistics.len(), 0);
    statistics.register_move();
    statistics.register_move();
    assert_eq!(statistics.len(), 2);
    assert_eq!(statistics.counts(0), (0, 0));

    // Two proposals of the first move, one accepted; one accepted proposal
    // of the second move.
    statistics.record_attempt(0);
    statistics.record_acceptance(0);
    statistics.record_attempt(0);
    statistics.record_attempt(1);
    statistics.record_acceptance(1);
    assert_eq!(statistics.counts(0), (1, 2));
    assert_eq!(statistics.counts(1), (1, 1));
}

#[test]
fn selection_with_no_eligible_molecule() {
    let moltypes = vec![7, 3, 7, 7, 5];
    let mut rng = StdRng::seed_from_u64(42);
    assert_eq!(select_molecule(&moltypes, Some(9), &mut rng), None);
    assert_eq!(select_molecule(&Vec::new(), None, &mut rng), None);
}
