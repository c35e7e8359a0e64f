use cybernetic_trpg::ability::Ability;

#[test]
fn ability_score_to_modifier() {
    for (score, expected_modifier) in [
        (1, -5),
        (2, -4),
        (3, -4),
        (4, -3),
        (5, -3),
        (6, -2),
        (7, -2),
        (8, -1),
        (9, -1),
        (10, 0),
        (11, 0),
        (12, 1),
        (13, 1),
        (14, 2),
        (15, 2),
        (16, 3),
        (17, 3),
        (18, 4),
        (19, 4),
        (20, 5),
        (21, 5),
        (22, 6),
        (23, 6),
        (24, 7),
        (25, 7),
        (26, 8),
        (27, 8),
        (28, 9),
        (29, 9),
        (30, 10),
    ] {
        assert_eq!(
            Ability::from_score(score).modifier(),
            expected_modifier,
            "Failed for score: {}",
            score
        );
    }
}

#[test]
fn ability_score_to_modifier_down() {
    for (modifier, expected_score) in [
        (-5, 1),
        (-4, 2),
        (-3, 4),
        (-2, 6),
        (-1, 8),
        (0, 10),
        (1, 12),
        (2, 14),
        (3, 16),
        (4, 18),
        (5, 20),
        (6, 22),
        (7, 24),
        (8, 26),
        (9, 28),
        (10, 30),
    ] {
        assert_eq!(
            Ability::from_modifier_down(modifier).score(),
            expected_score,
            "Failed for modifier: {}",
            modifier
        );
    }
}

#[test]
fn ability_score_to_modifier_up() {
    for (modifier, expected_score) in [
        (-5, 1),
        (-4, 3),
        (-3, 5),
        (-2, 7),
        (-1, 9),
        (0, 11),
        (1, 13),
        (2, 15),
        (3, 17),
        (4, 19),
        (5, 21),
        (6, 23),
        (7, 25),
        (8, 27),
        (9, 29),
        (10, 30),
    ] {
        assert_eq!(
            Ability::from_modifier_up(modifier).score(),
            expected_score,
            "Failed for modifier: {}",
            modifier
        );
    }
}

#[test]
fn ability_ability_score_to_modifier() {
    for (score, expected_modifier) in [
        (1, -5),
        (2, -4),
        (3, -4),
        (4, -3),
        (5, -3),
        (6, -2),
        (7, -2),
        (8, -1),
        (9, -1),
        (10, 0),
        (11, 0),
        (12, 1),
        (13, 1),
        (14, 2),
        (15, 2),
        (16, 3),
        (17, 3),
        (18, 4),
        (19, 4),
        (20, 5),
        (21, 5),
        (22, 6),
        (23, 6),
        (24, 7),
        (25, 7),
        (26, 8),
        (27, 8),
        (28, 9),
        (29, 9),
        (30, 10),
    ] {
        assert_eq!(
            Ability::from_score(score).modifier(),
            expected_modifier,
            "Failed for score: {}",
            score
        );
    }
}

#[test]
fn ability_ability_score_to_modifier_down() {
    for (modifier, expected_score) in [
        (-5, 1),
        (-4, 2),
        (-3, 4),
        (-2, 6),
        (-1, 8),
        (0, 10),
        (1, 12),
        (2, 14),
        (3, 16),
        (4, 18),
        (5, 20),
        (6, 22),
        (7, 24),
        (8, 26),
        (9, 28),
        (10, 30),
    ] {
        assert_eq!(
            Ability::from_modifier_down(modifier).score(),
            expected_score,
            "Failed for modifier: {}",
            modifier
        );
    }
}

#[test]
fn ability_ability_score_to_modifier_up() {
    for (modifier, expected_score) in [
        (-5, 1),
        (-4, 3),
        (-3, 5),
        (-2, 7),
        (-1, 9),
        (0, 11),
        (1, 13),
        (2, 15),
        (3, 17),
        (4, 19),
        (5, 21),
        (6, 23),
        (7, 25),
        (8, 27),
        (9, 29),
        (10, 30),
    ] {
        assert_eq!(
            Ability::from_modifier_up(modifier).score(),
            expected_score,
            "Failed for modifier: {}",
            modifier
        );
    }
}

#[test]
fn ability_score_is_clamped() {
    assert_eq!(Ability::from_score(-100).score(), 1);
    assert_eq!(Ability::from_score(0).score(), 1);
    assert_eq!(Ability::from_score(31).score(), 30);
    assert_eq!(Ability::from_score(isize::MAX).score(), 30);
    assert_eq!(Ability::from_score(isize::MIN).score(), 1);
    assert_eq!(Ability::default().score(), 10);
    assert_eq!(Ability::default().modifier(), 0);
}

#[test]
fn ability_block_defaults_to_ten() {
    let block = cybernetic_trpg::ability::AbilityBlock::default();
    assert_eq!(block.strenght.score(), 10);
    assert_eq!(block.dexterity.score(), 10);
    assert_eq!(block.constitution.score(), 10);
    assert_eq!(block.intellignce.score(), 10);
    assert_eq!(block.wisdom.score(), 10);
    assert_eq!(block.charisma.score(), 10);
}
