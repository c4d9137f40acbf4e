use post_view::cursor::PaginationCursor;
use post_view::hex::{chars_of, parse, push_bits};
use post_view::order::SortKey;
use post_view::query::{sort_key, PostQuery};
use post_view::run::nobody;
use post_view::types::{CommunityId, PersonId, PostId, PostSortType, QueryError};

fn post_id(text: &str) -> Result<i32, QueryError> {
    PaginationCursor(text.to_string()).post_id().map(|id| id.0)
}

fn written(n: i32) -> String {
    let mut text = String::new();
    push_bits(n, &mut text);
    text
}

#[test]
fn numbers_are_written_in_base_sixteen() {
    for (n, text) in [
        (0, "0"),
        (9, "9"),
        (10, "a"),
        (15, "f"),
        (16, "10"),
        (255, "ff"),
        (0x1a2b3c, "1a2b3c"),
        (i32::MAX, "7fffffff"),
        (-1, "ffffffff"),
        (i32::MIN, "80000000"),
    ] {
        assert_eq!(text, written(n));
        assert_eq!(format!("{n:x}"), written(n));
    }
}

#[test]
fn tokens_are_read_back() {
    for n in [0, 1, 15, 16, 12345, 0x7fff_ffff] {
        assert_eq!(Ok(n), post_id(&format!("P{}", written(n))));
    }
}

#[test]
fn the_first_character_of_a_token_is_passed_over() {
    assert_eq!(Ok(16), post_id("P10"));
    assert_eq!(Ok(16), post_id("x10"));
    assert_eq!(Ok(16), post_id("010"));
    // It has to be a single byte
    assert_eq!(Err(QueryError::BadPaginationToken), post_id("\u{e9}10"));
}

#[test]
fn numerals_in_tokens() {
    assert_eq!(Ok(0xabc), post_id("PABC"));
    assert_eq!(Ok(0xabc), post_id("P+abc"));
    assert_eq!(Ok(-0xabc), post_id("P-abc"));
    assert_eq!(Ok(0), post_id("P-0"));
    assert_eq!(Ok(1), post_id("P00000000001"));
    assert_eq!(Ok(i32::MIN), post_id("P-80000000"));
    for text in [
        "", "P", "P+", "P-", "P--1", "P1 ", "P 1", "Pg", "P1\u{e9}", "P80000000", "P-80000001",
        "Pffffffff", "P100000000000000000",
    ] {
        assert_eq!(Err(QueryError::BadPaginationToken), post_id(text), "{text}");
        let expected = text.get(1..).and_then(|e| i32::from_str_radix(e, 16).ok());
        assert_eq!(None, expected);
    }
}

#[test]
fn negative_ids_are_written_but_not_read_back() {
    assert_eq!("ffffffff", written(-1));
    assert_eq!(Err(QueryError::BadPaginationToken), post_id("Pffffffff"));
}

#[test]
fn texts_are_taken_apart() {
    assert_eq!(vec!['P', '\u{e9}', '1'], chars_of("P\u{e9}1"));
    assert_eq!(Some(0x1f), parse(&vec!['?', '1', 'F'], 1));
    assert_eq!(None, parse(&vec!['?'], 1));
}

#[test]
fn keys_of_a_query() {
    let query = PostQuery::default();
    assert_eq!(
        vec![SortKey::FeaturedLocal, SortKey::HotRank, SortKey::Published, SortKey::PostId],
        query.keys()
    );
    let query = PostQuery {
        sort: Some(PostSortType::Old),
        community_id: Some(CommunityId(1)),
        ..Default::default()
    };
    assert_eq!(
        vec![SortKey::FeaturedCommunity, SortKey::ReversePublished, SortKey::PostId],
        query.keys()
    );
    let query = PostQuery { community_id_just_for_prefetch: true, ..query };
    assert_eq!(SortKey::FeaturedLocal, query.keys()[0]);
    assert_eq!(SortKey::Score, sort_key(PostSortType::TopNineMonths));
    assert_eq!(SortKey::NewestCommentTime, sort_key(PostSortType::NewComments));
}

#[test]
fn stand_ins() {
    assert_eq!(PersonId(-1), nobody());
    assert_eq!(PostId(0), PostId::default());
}
