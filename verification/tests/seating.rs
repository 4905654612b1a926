use reedhold_host::SeatBook;

#[test]
fn seats_keep_strangers_out() {
    let mut book: SeatBook<String> = SeatBook::new();
    assert_eq!(book.find("").err(), Some("no unlocked session".to_owned()));
    assert!(book.seat("seat-one".to_owned(), "first account".to_owned()).is_none());
    assert!(book.find("").is_err());
    assert_eq!(book.find("seat-one"), Ok(&"first account".to_owned()));
    assert!(book.seat("seat-two".to_owned(), "second account".to_owned()).is_none());
    assert_eq!(book.find("seat-two"), Ok(&"second account".to_owned()));
    assert_eq!(book.find("seat-one"), Ok(&"first account".to_owned()));
    assert!(book.find("seat-three").is_err());
}

#[test]
fn empty_seat_is_refused() {
    let mut book: SeatBook<u32> = SeatBook::new();
    assert_eq!(book.seat(String::new(), 5), Some(5));
    assert!(book.find("").is_err());
}

#[test]
fn reseating_replaces() {
    let mut book: SeatBook<u32> = SeatBook::new();
    book.seat("a".to_owned(), 1);
    book.seat("b".to_owned(), 2);
    book.seat("a".to_owned(), 3);
    assert_eq!(book.find("a"), Ok(&3));
    assert_eq!(book.find("b"), Ok(&2));
}

#[test]
fn find_mut_changes_only_its_seat() {
    let mut book: SeatBook<Vec<u32>> = SeatBook::new();
    book.seat("a".to_owned(), vec![1]);
    book.seat("b".to_owned(), vec![2]);
    book.find_mut("a").expect("seated").push(10);
    assert_eq!(book.find("a"), Ok(&vec![1, 10]));
    assert_eq!(book.find("b"), Ok(&vec![2]));
    assert_eq!(book.find_mut("zz").err(), Some("no unlocked session".to_owned()));
    assert!(book.find_mut("").is_err());
}
