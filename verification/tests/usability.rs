use try_find::cursor::Cursor;
use try_find::find::TryFindExt;

#[test]
fn test_try_find_api_usability() -> Result<(), Box<dyn std::error::Error>> {
    let a = vec![String::from("1"), String::from("2")];

    let is_my_num = |s: &str, search: i32| -> Result<bool, std::num::ParseIntError> {
        Ok(s.parse::<i32>()? == search)
    };

    let mut c = Cursor::new(a);
    let val = c.try_find(|s: &String| is_my_num(s, 2))?;
    assert_eq!(val, Some(String::from("2")));

    Ok(())
}
