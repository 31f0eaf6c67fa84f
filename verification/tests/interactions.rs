use lumol::interactions::PairInteractions;
use lumol::kinds::ParticleKind;

#[test]
fn lookup_is_symmetric() {
    let mut interactions = PairInteractions::new();
    interactions.add_pair(ParticleKind(0), ParticleKind(1), 7);
    assert_eq!(interactions.lookup(ParticleKind(0), ParticleKind(1)), Some(7));
    assert_eq!(interactions.lookup(ParticleKind(1), ParticleKind(0)), Some(7));
}

#[test]
fn missing_pair_has_no_potential() {
    let mut interactions = PairInteractions::new();
    interactions.add_pair(ParticleKind(0), ParticleKind(1), 7);
    assert_eq!(interactions.lookup(ParticleKind(0), ParticleKind(0)), None);
    assert_eq!(interactions.lookup(ParticleKind(1), ParticleKind(2)), None);
    assert_eq!(interactions.lookup(ParticleKind(2), ParticleKind(1)), None);
}

#[test]
fn registering_again_replaces() {
    let mut interactions = PairInteractions::new();
    interactions.add_pair(ParticleKind(3), ParticleKind(2), 1);
    interactions.add_pair(ParticleKind(5), ParticleKind(5), 2);
    // The same unordered pair, written the other way around.
    interactions.add_pair(ParticleKind(2), ParticleKind(3), 9);
    assert_eq!(interactions.lookup(ParticleKind(3), ParticleKind(2)), Some(9));
    // Other pairs keep their potential.
    assert_eq!(interactions.lookup(ParticleKind(5), ParticleKind(5)), Some(2));
}
