use hotel_service::db::builder::{
    substitute, DeleteQueryBuilder, InsertQueryBuilder, QueryBuilder, SelectQueryBuilder,
    UpdateQueryBuilder,
};
use hotel_service::text::{decimal_string, natural_string};
use rand::Rng;

#[test]
fn substitute_replaces_every_occurrence() {
    let r = substitute("a $x b $x c", "$x", Some("yy")).unwrap();
    assert_eq!(r, "a yy b yy c");
}

#[test]
fn substitute_without_fragment_deletes_the_placeholder() {
    let r = substitute("SELECT $limit;", "$limit", None).unwrap();
    assert_eq!(r, "SELECT ;");
}

#[test]
fn substitute_without_fragment_accepts_a_missing_placeholder() {
    let r = substitute("SELECT 1;", "$limit", None).unwrap();
    assert_eq!(r, "SELECT 1;");
}

#[test]
fn substitute_with_fragment_needs_the_placeholder() {
    let e = substitute("SELECT 1;", "$limit", Some("LIMIT 1")).unwrap_err();
    assert_eq!(e.pattern, "$limit");
    assert_eq!(e.description(), "No pattern \"$limit\" in template");
}

#[test]
fn substitute_does_not_rescan_what_it_put_in() {
    let r = substitute("$x", "$x", Some("$x$x")).unwrap();
    assert_eq!(r, "$x$x");
}

#[test]
fn substitute_takes_the_leftmost_of_overlapping_occurrences() {
    let r = substitute("aaa", "aa", Some("b")).unwrap();
    assert_eq!(r, "ba");
}

#[test]
fn substitute_with_an_empty_pattern_puts_the_fragment_around_every_character() {
    let r = substitute("abc", "", Some("-")).unwrap();
    assert_eq!(r, "abc".replace("", "-"));
    assert_eq!(r, "-a-b-c-");
}

#[test]
fn substitute_handles_text_beyond_ascii() {
    let r = substitute("zażółć $x gęślą", "$x", Some("jaźń")).unwrap();
    assert_eq!(r, "zażółć jaźń gęślą");
}

#[test]
fn decimal_text_of_numbers() {
    assert_eq!(decimal_string(0), "0");
    assert_eq!(decimal_string(7), "7");
    assert_eq!(decimal_string(10), "10");
    assert_eq!(decimal_string(-123), "-123");
    assert_eq!(decimal_string(i32::MAX as i64), "2147483647");
    assert_eq!(decimal_string(i64::MIN), "-9223372036854775808");
    assert_eq!(decimal_string(i64::MAX), i64::MAX.to_string());
    assert_eq!(natural_string(u64::MAX), u64::MAX.to_string());
}

#[test]
fn select_with_filter_limit_and_offset() {
    let sql = SelectQueryBuilder::default()
        .from_tables("City")
        .filter("Name=$1")
        .limit(5)
        .offset(2)
        .build();
    assert_eq!(sql, "SELECT * FROM City WHERE Name=$1   LIMIT 5 OFFSET 2;");
}

#[test]
fn select_places_the_clauses_in_their_order() {
    let sql = SelectQueryBuilder::default()
        .offset(3)
        .limit(10)
        .order_by("Name")
        .group_by("CityID")
        .filter("Stars > $1")
        .from_tables("Hotel")
        .columns("CityID, Name")
        .build();
    assert_eq!(
        sql,
        "SELECT CityID, Name FROM Hotel WHERE Stars > $1 GROUP BY CityID ORDER BY Name LIMIT 10 OFFSET 3;"
    );
}

#[test]
fn select_without_clauses_leaves_their_blanks() {
    let sql = SelectQueryBuilder::default().from_tables("City").build();
    assert_eq!(sql, "SELECT * FROM City     ;");
}

#[test]
fn select_counting_wraps_the_columns() {
    let sql = SelectQueryBuilder::default().from_tables("City").counting(true).build();
    assert_eq!(sql, "SELECT COUNT(*) FROM City     ;");
    let sql = SelectQueryBuilder::default().from_tables("City").counting(false).build();
    assert_eq!(sql, "SELECT * FROM City     ;");
}

#[test]
fn select_with_negative_numbers() {
    let sql = SelectQueryBuilder::default().from_tables("T").limit(-1).offset(i32::MIN).build();
    assert_eq!(sql, "SELECT * FROM T    LIMIT -1 OFFSET -2147483648;");
}

#[test]
fn select_without_tables_cannot_be_built() {
    let e = SelectQueryBuilder::default().filter("a = $1").try_build().unwrap_err();
    assert_eq!(e.pattern, "$tables");
}

#[test]
fn select_on_a_template_without_the_placeholder_cannot_be_built() {
    let e = SelectQueryBuilder::with_template("SELECT $columns FROM $tables;")
        .from_tables("City")
        .filter("Name=$1")
        .try_build()
        .unwrap_err();
    assert_eq!(e.pattern, "$where_clause");
    let sql = SelectQueryBuilder::with_template("SELECT $columns FROM $tables;")
        .from_tables("City")
        .try_build()
        .unwrap();
    assert_eq!(sql, "SELECT * FROM City;");
}

#[test]
fn insert_numbers_the_placeholders_in_the_order_of_the_columns() {
    let sql = InsertQueryBuilder::default()
        .table("Person")
        .set("Login")
        .set("Name")
        .set("Email")
        .set("PassHash")
        .build();
    assert_eq!(sql, "INSERT INTO Person (Login,Name,Email,PassHash) VALUES ($1,$2,$3,$4);");
}

#[test]
fn insert_with_one_column() {
    let sql = InsertQueryBuilder::default().table("City").set("Name").build();
    assert_eq!(sql, "INSERT INTO City (Name) VALUES ($1);");
}

#[test]
fn insert_with_more_than_nine_columns() {
    let mut b = InsertQueryBuilder::default().table("T");
    for c in ["a", "b", "c", "d", "e", "f", "g", "h", "i", "j", "k"] {
        b = b.set(c);
    }
    assert_eq!(
        b.build(),
        "INSERT INTO T (a,b,c,d,e,f,g,h,i,j,k) VALUES ($1,$2,$3,$4,$5,$6,$7,$8,$9,$10,$11);"
    );
}

#[test]
fn insert_without_table_cannot_be_built() {
    let e = InsertQueryBuilder::default().set("Name").try_build().unwrap_err();
    assert_eq!(e.pattern, "$table");
}

#[test]
fn insert_without_columns_has_two_empty_lists() {
    let sql = InsertQueryBuilder::default().table("City").build();
    assert_eq!(sql, "INSERT INTO City () VALUES ();");
}

#[test]
fn update_pairs_columns_with_placeholders() {
    let sql = UpdateQueryBuilder::default()
        .table("Person")
        .filter("ID=7")
        .set("Name")
        .set("Email")
        .build();
    assert_eq!(sql, "UPDATE Person SET Name=$1,Email=$2 WHERE ID=7;");
}

#[test]
fn update_without_filter_leaves_its_blank() {
    let sql = UpdateQueryBuilder::default().table("City").set("Name").build();
    assert_eq!(sql, "UPDATE City SET Name=$1 ;");
}

#[test]
fn update_without_table_cannot_be_built() {
    let e = UpdateQueryBuilder::default().set("Name").try_build().unwrap_err();
    assert_eq!(e.pattern, "$table");
}

#[test]
fn update_without_columns_sets_nothing() {
    let sql = UpdateQueryBuilder::default().table("City").filter("ID=1").build();
    assert_eq!(sql, "UPDATE City SET  WHERE ID=1;");
}

#[test]
fn delete_with_and_without_filter() {
    let sql = DeleteQueryBuilder::default().from_tables("City").filter("Name=$1").build();
    assert_eq!(sql, "DELETE FROM City WHERE Name=$1;");
    let sql = DeleteQueryBuilder::default().from_tables("City").build();
    assert_eq!(sql, "DELETE FROM City ;");
}

#[test]
fn delete_without_tables_cannot_be_built() {
    let e = DeleteQueryBuilder::default().filter("Name=$1").try_build().unwrap_err();
    assert_eq!(e.pattern, "$from_tables");
}

#[test]
fn a_later_placeholder_inside_a_fragment_is_replaced_too() {
    let sql = InsertQueryBuilder::default().table("$columns").set("Name").build();
    assert_eq!(sql, "INSERT INTO Name (Name) VALUES ($1);");
}

fn random_text(rng: &mut rand::rngs::ThreadRng, alphabet: &[char], longest: usize) -> String {
    let len = rng.gen_range(0..=longest);
    (0..len).map(|_| alphabet[rng.gen_range(0..alphabet.len())]).collect()
}

#[test]
fn substitute_agrees_with_the_replacement_of_the_standard_library() {
    let mut rng = rand::thread_rng();
    let alphabet = ['a', 'b', '$', 'é'];
    for _ in 0..3000 {
        let template = random_text(&mut rng, &alphabet, 12);
        let pattern = random_text(&mut rng, &alphabet, 3);
        let fragment = random_text(&mut rng, &alphabet, 4);
        let removed = substitute(&template, &pattern, None).unwrap();
        assert_eq!(removed, template.replace(&pattern, ""), "{:?} {:?}", template, pattern);
        match substitute(&template, &pattern, Some(&fragment)) {
            Ok(replaced) => {
                assert!(template.contains(&pattern));
                assert_eq!(replaced, template.replace(&pattern, &fragment));
            },
            Err(e) => {
                assert!(!template.contains(&pattern));
                assert_eq!(e.pattern, pattern);
            },
        }
    }
}

#[test]
fn decimal_text_agrees_with_the_standard_library() {
    let mut rng = rand::thread_rng();
    for _ in 0..2000 {
        let n: i64 = rng.gen();
        assert_eq!(decimal_string(n), n.to_string());
        let small: i32 = rng.gen_range(-1000..1000);
        assert_eq!(decimal_string(small as i64), small.to_string());
        let m: u64 = rng.gen();
        assert_eq!(natural_string(m), m.to_string());
    }
}
