use chrono::NaiveDate;
use rust_decimal::Decimal;
use sunminimart::number::ParseIntError;
use sunminimart::server::assemble;
use sunminimart::server::database;
use sunminimart::server::database::check_date_shape;
use sunminimart::server::database::plan_row;
use sunminimart::server::database::read_expire_date;
use sunminimart::server::database::sync_database;
use sunminimart::server::database::LegacyRow;
use sunminimart::server::database::Step;
use sunminimart::server::get_items;
use sunminimart::server::AppError;
use sunminimart::server::Record;
use sunminimart::server::INTERNAL_SERVER_ERROR;
use sunminimart::shared::BulkItem;

fn row(barcode: &str, expire_date: &str) -> LegacyRow {
    LegacyRow {
        barcode: barcode.to_string(),
        expire_date: expire_date.to_string(),
    }
}

fn day(year: i32, month: u32, day: u32) -> NaiveDate {
    NaiveDate::from_ymd_opt(year, month, day).unwrap()
}

#[test]
fn rows_with_small_numbers_for_barcodes_are_left_out() {
    for barcode in ["0", "1", "999", "1000", "-5", "+1000", "0001000", "-2147483648"] {
        assert_eq!(plan_row(&row(barcode, "")), Ok(Step::Skip), "{}", barcode);
        assert_eq!(
            plan_row(&row(barcode, "xxxx-xx-xx")),
            Ok(Step::Skip),
            "{}",
            barcode
        );
    }
    for barcode in ["1001", "8850001", "", "abc", "1000 ", "99999999999", "10.0"] {
        assert_eq!(
            plan_row(&row(barcode, "")),
            Ok(Step::Store(None)),
            "{}",
            barcode
        );
    }
}

#[test]
fn expiry_is_read_day_first_and_year_last() {
    assert_eq!(
        read_expire_date(b"0015-06-24"),
        Ok(Some(day(24, 6, 15)))
    );
    assert_eq!(read_expire_date(b"0031-12-99"), Ok(Some(day(99, 12, 31))));
    assert_eq!(read_expire_date(b"+029-02-04"), Ok(Some(day(4, 2, 29))));
    assert_eq!(read_expire_date(b"0029-02-05"), Ok(None));
    assert_eq!(read_expire_date(b"0029-+2--4"), Ok(None));
    assert_eq!(read_expire_date(b"0001-01--4"), Ok(None));
    assert_eq!(read_expire_date(b"0001-01-+0"), Ok(Some(day(0, 1, 1))));
    assert_eq!(read_expire_date(b"0029-02-00"), Ok(Some(day(0, 2, 29))));
    assert_eq!(read_expire_date(b"2024-06-15"), Ok(None));
    assert_eq!(read_expire_date(b"0000-06-15"), Ok(None));
    assert_eq!(read_expire_date(b"0015-00-24"), Ok(None));
    assert_eq!(read_expire_date(b"0015-13-24"), Ok(None));
    assert_eq!(read_expire_date(b"0031-04-24"), Ok(None));
    assert_eq!(read_expire_date(b"0030-04-24"), Ok(Some(day(24, 4, 30))));
}

#[test]
fn expiry_of_another_shape_gives_no_date() {
    for text in [
        "",
        "2024-06-15 ",
        "2024/06/15",
        "24-06-2015",
        "2024-6-15",
        "2024-06-1",
        "20240615",
        "2024-06",
        "----------",
        "2024-06-15-",
        "abcd-ef",
        "2024--6-15",
    ] {
        assert!(!check_date_shape(text.as_bytes()), "{:?}", text);
        assert_eq!(read_expire_date(text.as_bytes()), Ok(None), "{:?}", text);
    }
    assert!(check_date_shape(b"abcd-ef-gh"));
    assert!(check_date_shape(b"2024-06-15"));
}

#[test]
fn expiry_that_is_no_number_is_an_error() {
    assert_eq!(
        read_expire_date(b"0015-06-2x"),
        Err(ParseIntError::InvalidDigit)
    );
    assert_eq!(
        read_expire_date(b"0015-0x-24"),
        Err(ParseIntError::InvalidDigit)
    );
    assert_eq!(
        read_expire_date(b"x015-06-24"),
        Err(ParseIntError::InvalidDigit)
    );
    assert_eq!(
        read_expire_date(b" 015-06-24"),
        Err(ParseIntError::InvalidDigit)
    );
    assert_eq!(read_expire_date(b"-015-06-24"), Ok(None));
    assert_eq!(
        read_expire_date(b"0015--6-24"),
        Ok(None)
    );
    assert_eq!(
        read_expire_date("ขนม-06-2".as_bytes()),
        Ok(None)
    );
    assert_eq!(
        read_expire_date("éé-06-24".as_bytes()),
        Err(ParseIntError::InvalidDigit)
    );
}

#[test]
fn plan_holds_a_step_for_every_row_that_can_be_read() {
    let rows = vec![
        row("8850001", "0015-06-24"),
        row("12", "0015-06-24"),
        row("8850002", ""),
        row("abc", "2024-06-15"),
    ];
    let plan = sync_database(&rows);
    assert_eq!(plan.outcome, Ok(()));
    assert_eq!(
        plan.steps,
        vec![
            Step::Store(Some(day(24, 6, 15))),
            Step::Skip,
            Step::Store(None),
            Step::Store(None),
        ]
    );
    let plan = sync_database(&Vec::new());
    assert_eq!(plan.outcome, Ok(()));
    assert!(plan.steps.is_empty());
}

#[test]
fn plan_ends_at_the_first_row_that_cannot_be_read() {
    let rows = vec![
        row("8850001", "0015-06-24"),
        row("8850002", "0015-06-2x"),
        row("8850003", "0016-06-24"),
    ];
    let plan = sync_database(&rows);
    assert_eq!(plan.steps, vec![Step::Store(Some(day(24, 6, 15)))]);
    assert_eq!(
        plan.outcome,
        Err(AppError::ParseIntError(ParseIntError::InvalidDigit))
    );

    let rows = vec![row("7", "0015-06-2x"), row("8850002", "00x5-06-24")];
    let plan = sync_database(&rows);
    assert_eq!(plan.steps, vec![Step::Skip]);
    assert_eq!(
        plan.outcome,
        Err(AppError::ParseIntError(ParseIntError::InvalidDigit))
    );
}

#[test]
fn errors_go_out_as_internal_server_errors() {
    let response = AppError::ParseIntError(ParseIntError::InvalidDigit).into_response();
    assert_eq!(response.status, 500);
    assert_eq!(response.status, INTERNAL_SERVER_ERROR);
    assert_eq!(response.error, "invalid digit found in string");

    let response = AppError::DatabaseError("pool timed out".to_string()).into_response();
    assert_eq!(response.status, 500);
    assert_eq!(response.error, "pool timed out");

    assert_eq!(
        AppError::from(ParseIntError::Empty),
        AppError::ParseIntError(ParseIntError::Empty)
    );
    assert_eq!(
        AppError::ParseIntError(ParseIntError::Empty).message(),
        "cannot parse integer from empty string"
    );
}

#[test]
fn items_are_put_together_from_their_rows() {
    let records = vec![
        Record {
            item: database::Item {
                barcode: "8850001".to_string(),
                name: "ขนม".to_string(),
                cost: Decimal::new(56, 1),
                price: Decimal::new(82, 1),
                quantity: 34,
                image: Some(vec![9, 8]),
            },
            bulk_items: vec![BulkItem {
                barcode: None,
                name: "ขนม x6".to_string(),
                price: Decimal::new(450, 1),
                quantity: 6,
                image: None,
            }],
            expire_dates: vec![day(2025, 1, 31)],
        },
        Record {
            item: database::Item {
                barcode: "8850002".to_string(),
                name: "น้ำดื่ม".to_string(),
                cost: Decimal::new(5, 0),
                price: Decimal::new(7, 0),
                quantity: 0,
                image: None,
            },
            bulk_items: Vec::new(),
            expire_dates: Vec::new(),
        },
    ];
    let items = get_items(&records);
    assert_eq!(items.len(), 2);
    assert_eq!(items[0].barcode, "8850001");
    assert_eq!(items[0].name, "ขนม");
    assert_eq!(items[0].cost, Decimal::new(56, 1));
    assert_eq!(items[0].price, Decimal::new(82, 1));
    assert_eq!(items[0].quantity, 34);
    assert_eq!(items[0].image, Some(vec![9, 8]));
    assert_eq!(items[0].expire_date, vec![day(2025, 1, 31)]);
    assert_eq!(items[0].bulk_item, records[0].bulk_items);
    assert_eq!(items[1], assemble(&records[1]));
    assert_eq!(items[1].barcode, "8850002");
    assert!(items[1].bulk_item.is_empty());
    assert!(get_items(&Vec::new()).is_empty());
}
