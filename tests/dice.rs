use cygnus::dice::Roll;

#[test]
fn _should_display_no_mod() {
    let dr = Roll::new(1, 6, 0);
    assert_eq!(dr.to_string(), "1d6");
}

#[test]
fn _should_display_positive_mod() {
    let dr = Roll::new(1, 6, 2);
    assert_eq!(dr.to_string(), "1d6 + 2");
}

#[test]
fn _should_display_negative_mod() {
    let dr = Roll::new(1, 6, -1);
    assert_eq!(dr.to_string(), "1d6 - 1");
}

#[test]
fn _should_add_new_size_die_to_dice_roll() {
    let mut dr = Roll::new(1, 6, 1);
    dr.add_die(2, 10);
    assert_eq!(dr.to_string(), "1d6 + 2d10 + 1");
}

#[test]
fn _should_sort_new_dice() {
    let mut dr = Roll::new(1, 10, 2);
    dr.add_die(2, 4);
    assert_eq!(dr.to_string(), "2d4 + 1d10 + 2");
}

#[test]
fn _should_combine_like_die() {
    let mut dr = Roll::new(1, 6, 3);
    dr.add_die(2, 6);
    assert_eq!(dr.to_string(), "3d6 + 3");
}

#[test]
fn dice_keep_their_order_over_several_additions() {
    let mut dr = Roll::new(1, 8, -12);
    dr.add_die(1, 20);
    dr.add_die(3, 4);
    dr.add_die(1, 12);
    dr.add_die(2, 8);
    assert_eq!(dr.to_string(), "3d4 + 3d8 + 1d12 + 1d20 - 12");
    assert_eq!(Roll::new(1, 6, isize::MIN).to_string(), format!("1d6 - {}", (isize::MIN as i128).abs()));
}
