use try_find::cursor::Cursor;
use try_find::find::TryFindExt;

fn testfn(x: &isize) -> Result<bool, ()> {
    if *x == 2 {
        return Ok(true);
    }
    if *x == 4 {
        return Err(());
    }
    Ok(false)
}

#[test]
fn test_try_find() {
    let mut xs: Cursor<isize> = Cursor::new(vec![]);
    assert_eq!(xs.try_find(testfn), Ok(None));
    let mut xs = Cursor::new(vec![1isize, 2, 3, 4]);
    assert_eq!(xs.try_find(testfn), Ok(Some(2)));
    let mut xs = Cursor::new(vec![1isize, 3, 4]);
    assert_eq!(xs.try_find(testfn), Err(()));

    let mut iter = Cursor::new(vec![1isize, 2, 3, 4, 5, 6, 7]);
    assert_eq!(iter.try_find(testfn), Ok(Some(2)));
    assert_eq!(iter.try_find(testfn), Err(()));
    assert_eq!(iter.next(), Some(5));
}

#[test]
fn empty_cursor_yields_none_even_for_failing_predicate() {
    let mut xs: Cursor<isize> = Cursor::new(vec![]);
    let r: Result<Option<isize>, &str> = xs.try_find(|_x: &isize| Err("boom"));
    assert_eq!(r, Ok(None));
    assert_eq!(xs.remaining(), 0);
}

#[test]
fn rejecting_predicate_consumes_every_element() {
    let mut xs = Cursor::new(vec![10u32, 20, 30]);
    let r: Result<Option<u32>, ()> = xs.try_find(|_x: &u32| Ok(false));
    assert_eq!(r, Ok(None));
    assert_eq!(xs.remaining(), 0);
    assert_eq!(xs.next(), None);
}

#[test]
fn match_consumes_exactly_up_to_the_match() {
    let mut xs = Cursor::new(vec![1u32, 2, 3, 4]);
    let r: Result<Option<u32>, ()> = xs.try_find(|x: &u32| Ok(*x == 3));
    assert_eq!(r, Ok(Some(3)));
    assert_eq!(xs.remaining(), 1);
    assert_eq!(xs.next(), Some(4));
    assert_eq!(xs.next(), None);
}

#[test]
fn failure_consumes_exactly_up_to_the_failure() {
    let mut xs = Cursor::new(vec![1u32, 2, 3, 4]);
    let r: Result<Option<u32>, u32> = xs.try_find(
        |x: &u32| {
            if *x == 2 {
                Err(*x)
            } else {
                Ok(false)
            }
        },
    );
    assert_eq!(r, Err(2));
    assert_eq!(xs.remaining(), 2);
    assert_eq!(xs.next(), Some(3));
}

#[test]
fn match_on_first_element_leaves_the_rest() {
    let mut xs = Cursor::new(vec![7u32, 8, 9]);
    let r: Result<Option<u32>, ()> = xs.try_find(|x: &u32| Ok(*x == 7));
    assert_eq!(r, Ok(Some(7)));
    assert_eq!(xs.remaining(), 2);
    assert_eq!(xs.next(), Some(8));
}

fn parse_and_compare(s: &String, search: i32) -> Result<bool, std::num::ParseIntError> {
    Ok(s.parse::<i32>()? == search)
}

#[test]
fn find_by_parsing_strings() {
    let words = || {
        vec![
            String::from("1"),
            String::from("2"),
            String::from("lol"),
            String::from("NaN"),
            String::from("5"),
        ]
    };

    let mut c = Cursor::new(words());
    let r = c.try_find(|s: &String| parse_and_compare(s, 2));
    assert_eq!(r, Ok(Some(String::from("2"))));

    let mut c = Cursor::new(words());
    let r = c.try_find(|s: &String| parse_and_compare(s, 5));
    assert!(r.is_err());
    assert_eq!(r.unwrap_err(), "lol".parse::<i32>().unwrap_err());
}

#[test]
fn cursor_hands_elements_out_in_order() {
    let mut c = Cursor::new(vec![5i64, -1, 0]);
    assert_eq!(c.remaining(), 3);
    assert_eq!(c.next(), Some(5));
    assert_eq!(c.next(), Some(-1));
    assert_eq!(c.remaining(), 1);
    assert_eq!(c.next(), Some(0));
    assert_eq!(c.next(), None);
    assert_eq!(c.remaining(), 0);
}
