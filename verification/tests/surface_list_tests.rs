use waylandcraft::surface_list::insert_all;

#[test]
fn insert_all_enters_new_handles_once_in_order() {
    let mut v: Vec<u64> = vec![3, 5];
    insert_all(&mut v, &[5, 7, 3, 7, 9]);
    assert_eq!(v, vec![3, 5, 7, 9]);
    insert_all(&mut v, &[]);
    assert_eq!(v, vec![3, 5, 7, 9]);
}
