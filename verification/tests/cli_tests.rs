use game_of_life::cli::pair_points;

#[test]
fn an_even_list_is_paired_in_order() {
    let points = pair_points(&vec![3, 4, 5, 6, 0, 9]).unwrap();
    assert_eq!(vec![(3, 4), (5, 6), (0, 9)], points);
}

#[test]
fn an_empty_list_gives_no_points() {
    let points = pair_points(&vec![]).unwrap();
    assert!(points.is_empty());
}

#[test]
fn an_odd_list_is_rejected() {
    assert!(pair_points(&vec![1, 2, 3]).is_err());
}
