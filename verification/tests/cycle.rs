use redditing_buddy::config::Query;
use redditing_buddy::config::SubredditData;
use redditing_buddy::reddit::run_cycle;
use redditing_buddy::reddit::Link;
use redditing_buddy::reddit::Listing;
use redditing_buddy::reddit::Thing;

fn feed(name: &str, cursor: &str) -> SubredditData {
    SubredditData {
        subreddit: String::from(name),
        search_query: Query {
            before: String::from(cursor),
            ..Query::default()
        },
    }
}

fn item(id: &str, title: &str, created: u64) -> Thing<Link> {
    Thing {
        data: Link {
            created_utc: created,
            name: String::from(id),
            num_comments: 1,
            score: 2,
            selftext: String::new(),
            subreddit_name_prefixed: String::new(),
            title: String::from(title),
            url: String::from("https://old.reddit.com/r/rust"),
        },
        kind: String::from("t3"),
    }
}

fn listing(items: Vec<Thing<Link>>) -> Thing<Listing> {
    let dist = items.len() as u8;
    Thing {
        data: Listing {
            children: items,
            dist,
        },
        kind: String::from("Listing"),
    }
}

#[test]
fn ages_and_cursor_from_one_feed() {
    let t: u64 = 10_000_000;
    let mut configs = vec![feed("rust", "t3_old")];
    let responses = vec![Some(listing(vec![
        item("t3_aaa", "Post #1", t - 30),
        item("t3_bbb", "Post #2", t - 3600),
        item("t3_ccc", "Post #3", t),
    ]))];

    let result = run_cycle(&mut configs, &responses, t);

    assert_eq!(result.len(), 1);
    let (label, posts) = &result[0];
    assert_eq!(label.as_str(), "r/rust");
    assert_eq!(posts.len(), 3);
    assert_eq!(posts[0].posted, 30);
    assert_eq!(posts[1].posted, 3600);
    assert_eq!(posts[2].posted, 0);
    assert_eq!(posts[0].title.as_str(), "Post #1");
    assert_eq!(posts[0].score, 2);
    assert_eq!(posts[0].comments, 1);
    assert_eq!(configs[0].search_query.before.as_str(), "t3_aaa");
}

#[test]
fn age_is_clamped_for_items_from_the_future() {
    let t: u64 = 1000;
    let mut configs = vec![feed("rust", "")];
    let responses = vec![Some(listing(vec![item("t3_aaa", "Ahead", t + 50)]))];

    let result = run_cycle(&mut configs, &responses, t);

    assert_eq!(result[0].1[0].posted, 0);
}

#[test]
fn one_failed_feed_empties_the_cycle() {
    let t: u64 = 10_000_000;
    let mut configs = vec![feed("rust", "t3_r0"), feed("golang", "t3_g0")];
    let responses = vec![
        Some(listing(vec![item("t3_r1", "Fine", t - 10)])),
        None,
    ];

    let result = run_cycle(&mut configs, &responses, t);

    assert!(result.is_empty());
    assert_eq!(configs[0].search_query.before.as_str(), "t3_r0");
    assert_eq!(configs[1].search_query.before.as_str(), "t3_g0");
}

#[test]
fn an_itemless_response_empties_the_cycle() {
    let t: u64 = 10_000_000;
    let mut configs = vec![feed("rust", "t3_r0"), feed("golang", "t3_g0")];
    let responses = vec![
        Some(listing(vec![item("t3_r1", "Fine", t - 10)])),
        Some(listing(vec![])),
    ];

    let result = run_cycle(&mut configs, &responses, t);

    assert!(result.is_empty());
    assert_eq!(configs[0].search_query.before.as_str(), "t3_r0");
    assert_eq!(configs[1].search_query.before.as_str(), "t3_g0");
}

#[test]
fn each_feed_advances_by_its_own_response() {
    let t: u64 = 10_000_000;
    let mut configs = vec![feed("rust", "t3_r0"), feed("golang", "t3_g0")];
    let responses = vec![
        Some(listing(vec![item("t3_r1", "From rust", t - 10)])),
        Some(listing(vec![
            item("t3_g1", "From golang", t - 20),
            item("t3_g0", "Seen before", t - 40),
        ])),
    ];

    let result = run_cycle(&mut configs, &responses, t);

    assert_eq!(result.len(), 2);
    assert_eq!(result[0].0.as_str(), "r/rust");
    assert_eq!(result[1].0.as_str(), "r/golang");
    assert_eq!(result[1].1.len(), 2);
    assert_eq!(configs[0].search_query.before.as_str(), "t3_r1");
    assert_eq!(configs[1].search_query.before.as_str(), "t3_g1");
}

#[test]
fn zero_feeds_yield_an_empty_cycle() {
    let mut configs: Vec<SubredditData> = vec![];
    let responses = vec![];

    let result = run_cycle(&mut configs, &responses, 12345);

    assert!(result.is_empty());
    assert!(configs.is_empty());
}
