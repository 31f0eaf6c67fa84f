use lumol::kinds::KindRegistry;
use lumol::kinds::ParticleKind;

#[test]
fn invalid_kind() {
    assert_eq!(ParticleKind::invalid(), ParticleKind(u32::MAX));
    assert_eq!(ParticleKind::invalid().0, 4294967295);
}

#[test]
fn kind_text() {
    assert_eq!(ParticleKind(0).to_text(), "0");
    assert_eq!(ParticleKind(7).to_text(), "7");
    assert_eq!(ParticleKind(10).to_text(), "10");
    assert_eq!(ParticleKind(42).to_text(), "42");
    assert_eq!(ParticleKind(90210).to_text(), "90210");
    assert_eq!(ParticleKind::invalid().to_text(), "4294967295");
}

#[test]
fn kinds_from_names() {
    let mut registry = KindRegistry::new();
    assert_eq!(registry.len(), 0);

    let oxygen = registry.get_kind("O");
    let hydrogen = registry.get_kind("H");
    assert_eq!(oxygen, ParticleKind(0));
    assert_eq!(hydrogen, ParticleKind(1));
    assert_eq!(registry.len(), 2);

    // The same name always gives back the same kind.
    assert_eq!(registry.get_kind("O"), oxygen);
    assert_eq!(registry.get_kind("H"), hydrogen);
    assert_eq!(registry.len(), 2);

    // A fresh name gets the next kind.
    assert_eq!(registry.get_kind("Na"), ParticleKind(2));
    assert_eq!(registry.len(), 3);

    // No assigned kind is the invalid marker.
    assert_ne!(registry.get_kind("O"), ParticleKind::invalid());
    assert_ne!(registry.get_kind("Na"), ParticleKind::invalid());
}

#[test]
fn empty_name_is_a_name() {
    let mut registry = KindRegistry::new();
    let anonymous = registry.get_kind("");
    assert_eq!(anonymous, ParticleKind(0));
    assert_eq!(registry.get_kind(""), anonymous);
    assert_eq!(registry.len(), 1);
}
