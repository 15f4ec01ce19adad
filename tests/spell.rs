use cygnus::ability::Identifier as Ability;
use cygnus::dice::Roll;
use cygnus::spell::{Attack, AttackType, CastingTime, Component, Duration, Effect, Range, School, Spell};

fn fire_bolt() -> Spell {
    Spell::new(
        "fire bolt",
        0,
        CastingTime::Action(1),
        Range::Feet(120),
        vec![Component::Verbal, Component::Somatic],
        Duration::Instantaneous,
        false,
        School::Evocation,
        Some(Attack::Attack(AttackType::Ranged)),
        Effect::Fire,
        "Say cheese!",
        vec![
            (0, Roll::new(1, 10, 0)),
            (1, Roll::new(2, 10, 0)),
            (2, Roll::new(3, 10, 0)),
            (3, Roll::new(4, 10, 0)),
        ],
    )
}

fn fireball() -> Spell {
    Spell::new(
        "fireball",
        3,
        CastingTime::Action(1),
        Range::Sphere { distance: 150, radius: 20 },
        vec![Component::Verbal, Component::Somatic, Component::Material],
        Duration::Instantaneous,
        false,
        School::Evocation,
        Some(Attack::Save(Ability::Dexterity)),
        Effect::Fire,
        "EXPLOSION!!!",
        vec![
            (0, Roll::new(6, 8, 0)),
            (1, Roll::new(7, 8, 0)),
            (2, Roll::new(8, 8, 0)),
            (3, Roll::new(9, 8, 0)),
            (4, Roll::new(10, 8, 0)),
            (5, Roll::new(11, 8, 0)),
            (6, Roll::new(12, 8, 0)),
        ],
    )
}

#[test]
fn _cantrip_damage_should_improve_on_casters_level() {
    let fire_bolt = fire_bolt();
    assert_eq!(fire_bolt.get_damage(4), Some(&Roll::new(1, 10, 0)));
    assert_eq!(fire_bolt.get_damage(5), Some(&Roll::new(2, 10, 0)));
    assert_eq!(fire_bolt.get_damage(10), Some(&Roll::new(2, 10, 0)));
    assert_eq!(fire_bolt.get_damage(11), Some(&Roll::new(3, 10, 0)));
    assert_eq!(fire_bolt.get_damage(16), Some(&Roll::new(3, 10, 0)));
    assert_eq!(fire_bolt.get_damage(17), Some(&Roll::new(4, 10, 0)));
}

#[test]
fn _undercasting_a_leveled_spell_should_return_none_damge() {
    let fireball = fireball();
    assert_eq!(fireball.get_damage(1), None);
}

#[test]
fn _leveled_spell_should_improve_damage_on_upcasting() {
    let fireball = fireball();
    assert_eq!(fireball.get_damage(3), Some(&Roll::new(6, 8, 0)));
    assert_eq!(fireball.get_damage(4), Some(&Roll::new(7, 8, 0)));
    assert_eq!(fireball.get_damage(5), Some(&Roll::new(8, 8, 0)));
    assert_eq!(fireball.get_damage(6), Some(&Roll::new(9, 8, 0)));
    assert_eq!(fireball.get_damage(7), Some(&Roll::new(10, 8, 0)));
    assert_eq!(fireball.get_damage(8), Some(&Roll::new(11, 8, 0)));
    assert_eq!(fireball.get_damage(9), Some(&Roll::new(12, 8, 0)));
}

#[test]
fn spell_getters_return_what_was_given() {
    let fireball = fireball();
    assert_eq!(fireball.get_name(), "fireball");
    assert_eq!(fireball.get_level(), 3);
    assert_eq!(fireball.get_school(), School::Evocation);
    assert_eq!(fireball.get_components().len(), 3);
    assert!(!fireball.is_concentration());
    assert_eq!(fireball.get_attack(), Some(Attack::Save(Ability::Dexterity)));
    assert_eq!(fireball.get_damage(10), Some(&Roll::new(6, 8, 0)));
    assert_eq!(fire_bolt().get_damage(usize::MAX).is_none(), true);
}
