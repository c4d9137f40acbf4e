use post_view::cursor::{PaginationCursor, PaginationCursorData};
use post_view::listing::{counts, Step};
use post_view::query::{period, PostQuery, Site, Window};
use post_view::tables::{
    Community, CommunityAggregates, CommunityFollower, CommunityPerson, Cutoff, Database,
    FuzzyMatch, ImageDetails, InstanceBlock, Interval, LocalUser, LocalUserLanguage, Person,
    PersonBlock, PersonPostAggregates, Post, PostAggregates, PostLike, PostPerson, PostSaved,
};
use post_view::types::{
    CommunityFollowerState, CommunityId, CommunityVisibility, InstanceId, LanguageId, ListingType,
    LocalUserId, PersonId, PostId, PostSortType, QueryError,
};
use post_view::view::PostView;

const POST_WITH_ANOTHER_TITLE: &str = "Another title";
const POST_BY_BLOCKED_PERSON: &str = "post by blocked person";
const POST_BY_BOT: &str = "post by bot";
const POST: &str = "post";

const UNDETERMINED_ID: LanguageId = LanguageId(0);
const SPANISH_ID: LanguageId = LanguageId(39);
const FRENCH_ID: LanguageId = LanguageId(47);
const RANK_DEFAULT: i64 = 1;

const INSTANCE: InstanceId = InstanceId(1);
const TEGAN: PersonId = PersonId(1);
const MYBOT: PersonId = PersonId(2);
const JOHN: PersonId = PersonId(3);
const COMMUNITY: CommunityId = CommunityId(1);

/// A snapshot, and the ids of the posts that every test starts with.
struct Data {
    db: Database,
    local_user: LocalUser,
    blocked_local_user: LocalUser,
    inserted_post: PostId,
    inserted_bot_post: PostId,
    site: Site,
}

fn person(id: PersonId, name: &str) -> Person {
    Person {
        id,
        name: name.to_string(),
        display_name: None,
        avatar: None,
        banned: false,
        published: 0,
        updated: None,
        actor_id: format!("http://my_domain.tld/u/{name}"),
        bio: None,
        local: true,
        private_key: None,
        public_key: "pubkey".to_string(),
        last_refreshed_at: 0,
        banner: None,
        deleted: false,
        inbox_url: format!("http://my_domain.tld/u/{name}/inbox"),
        matrix_user_id: None,
        bot_account: false,
        ban_expires: None,
        instance_id: INSTANCE,
    }
}

fn community(id: CommunityId, instance_id: InstanceId, name: &str, title: &str) -> Community {
    Community {
        id,
        name: name.to_string(),
        title: title.to_string(),
        sidebar: None,
        removed: false,
        published: 0,
        updated: None,
        deleted: false,
        nsfw: false,
        actor_id: format!("http://my_domain.tld/c/{name}"),
        local: true,
        private_key: None,
        public_key: "pubkey".to_string(),
        last_refreshed_at: 0,
        icon: None,
        banner: None,
        followers_url: None,
        inbox_url: format!("http://my_domain.tld/c/{name}/inbox"),
        hidden: false,
        posting_restricted_to_mods: false,
        instance_id,
        moderators_url: None,
        featured_url: None,
        visibility: CommunityVisibility::Public,
        description: None,
    }
}

fn post(id: PostId, name: &str, creator_id: PersonId, community_id: CommunityId) -> Post {
    Post {
        id,
        name: name.to_string(),
        url: None,
        body: None,
        creator_id,
        community_id,
        removed: false,
        locked: false,
        published: id.0 as i64,
        updated: None,
        deleted: false,
        nsfw: false,
        embed_title: None,
        embed_description: None,
        thumbnail_url: None,
        ap_id: format!("http://my_domain.tld/post/{}", id.0),
        local: true,
        embed_video_url: None,
        language_id: UNDETERMINED_ID,
        featured_community: false,
        featured_local: false,
        url_content_type: None,
        alt_text: None,
        scheduled_publish_time: None,
    }
}

fn local_user(id: i32, person_id: PersonId) -> LocalUser {
    LocalUser {
        id: LocalUserId(id),
        person_id,
        admin: false,
        show_nsfw: false,
        show_bot_accounts: true,
        show_read_posts: true,
    }
}

impl Data {
    fn default_post_query(&self) -> PostQuery<'_> {
        PostQuery {
            sort: Some(PostSortType::New),
            local_user: Some(&self.local_user),
            ..Default::default()
        }
    }

    fn create_post(&mut self, post: Post) -> PostId {
        let id = post.id;
        let instance_id = self
            .db
            .communities
            .iter()
            .find(|c| c.id == post.community_id)
            .unwrap()
            .instance_id;
        self.db.post_aggregates.push(PostAggregates {
            post_id: id,
            comments: 0,
            score: 0,
            upvotes: 0,
            downvotes: 0,
            published: post.published,
            newest_comment_time_necro: post.published,
            newest_comment_time: post.published,
            featured_community: post.featured_community,
            featured_local: post.featured_local,
            hot_rank: RANK_DEFAULT,
            hot_rank_active: RANK_DEFAULT,
            community_id: post.community_id,
            creator_id: post.creator_id,
            controversy_rank: 0,
            instance_id,
            scaled_rank: RANK_DEFAULT,
        });
        self.db.posts.push(post);
        id
    }

    fn next_post_id(&self) -> PostId {
        PostId(self.db.posts.len() as i32 + 1)
    }

    fn post_mut(&mut self, id: PostId) -> &mut Post {
        self.db.posts.iter_mut().find(|p| p.id == id).unwrap()
    }

    fn community_mut(&mut self) -> &mut Community {
        self.db.communities.iter_mut().find(|c| c.id == COMMUNITY).unwrap()
    }

    fn set_languages(&mut self, user: LocalUserId, languages: &[LanguageId]) {
        self.db.local_user_languages.retain(|l| l.local_user_id != user);
        for language_id in languages {
            self.db
                .local_user_languages
                .push(LocalUserLanguage { local_user_id: user, language_id: *language_id });
        }
    }

    fn follow(&mut self, community_id: CommunityId, person_id: PersonId) {
        self.db.community_followers.push(CommunityFollower {
            community_id,
            person_id,
            state: CommunityFollowerState::Accepted,
        });
    }

    /// Answers, for every text, whether it matches the term.
    fn index_for(&mut self, term: &str) {
        let mut matches = Vec::new();
        for p in &self.db.posts {
            for text in [Some(&p.name), p.body.as_ref()].into_iter().flatten() {
                if text.to_lowercase().contains(&term.to_lowercase()) {
                    matches.push(FuzzyMatch { text: text.clone(), term: term.to_string() });
                }
            }
        }
        self.db.fuzzy_matches = matches;
    }

    fn list<'a>(&'a self, query: PostQuery<'_>) -> Vec<PostView<'a>> {
        assert!(self.db.is_wf());
        query.list(&self.site, Ok(Window { limit: 10, offset: 0 }), &self.db).unwrap()
    }

    fn read(&self, user: Option<&LocalUser>, moderating: bool) -> Result<PostView<'_>, QueryError> {
        assert!(self.db.is_wf());
        PostView::read(&self.db, self.inserted_post, user, moderating)
    }
}

/// The rows of the sample post, of its creator and of its community.
struct Rows {
    post: Post,
    creator: Person,
    community: Community,
}

fn expected_rows() -> Rows {
    Rows {
        post: Post {
            id: PostId(2),
            name: "post".to_string(),
            creator_id: TEGAN,
            url: None,
            body: None,
            alt_text: None,
            published: 2,
            updated: None,
            community_id: COMMUNITY,
            removed: false,
            deleted: false,
            locked: false,
            nsfw: false,
            embed_title: None,
            embed_description: None,
            embed_video_url: None,
            thumbnail_url: None,
            ap_id: "http://my_domain.tld/post/2".to_string(),
            local: true,
            language_id: LanguageId(47),
            featured_community: false,
            featured_local: false,
            url_content_type: None,
            scheduled_publish_time: None,
        },
        creator: Person {
            id: TEGAN,
            name: "tegan".to_string(),
            display_name: None,
            published: 0,
            avatar: None,
            actor_id: "http://my_domain.tld/u/tegan".to_string(),
            local: true,
            bot_account: false,
            banned: false,
            deleted: false,
            bio: None,
            banner: None,
            updated: None,
            inbox_url: "http://my_domain.tld/u/tegan/inbox".to_string(),
            matrix_user_id: None,
            ban_expires: None,
            instance_id: INSTANCE,
            private_key: None,
            public_key: "pubkey".to_string(),
            last_refreshed_at: 0,
        },
        community: Community {
            id: COMMUNITY,
            name: "test_community_3".to_string(),
            icon: None,
            removed: false,
            deleted: false,
            nsfw: false,
            actor_id: "http://my_domain.tld/c/test_community_3".to_string(),
            local: true,
            title: "nada".to_owned(),
            sidebar: None,
            description: None,
            updated: None,
            banner: None,
            hidden: false,
            posting_restricted_to_mods: false,
            published: 0,
            instance_id: INSTANCE,
            private_key: None,
            public_key: "pubkey".to_string(),
            last_refreshed_at: 0,
            followers_url: None,
            inbox_url: "http://my_domain.tld/c/test_community_3/inbox".to_string(),
            moderators_url: None,
            featured_url: None,
            visibility: CommunityVisibility::Public,
        },
    }
}

fn expected_post_view(rows: &Rows) -> PostView<'_> {
    PostView {
        post: &rows.post,
        my_vote: None,
        unread_comments: 0,
        creator: &rows.creator,
        image_details: None,
        creator_banned_from_community: false,
        banned_from_community: false,
        creator_is_moderator: false,
        creator_is_admin: true,
        community: &rows.community,
        counts: PostAggregates {
            post_id: PostId(2),
            comments: 0,
            score: 0,
            upvotes: 0,
            downvotes: 0,
            published: 2,
            newest_comment_time_necro: 2,
            newest_comment_time: 2,
            featured_community: false,
            featured_local: false,
            hot_rank: RANK_DEFAULT,
            hot_rank_active: RANK_DEFAULT,
            controversy_rank: 0,
            scaled_rank: RANK_DEFAULT,
            community_id: COMMUNITY,
            creator_id: TEGAN,
            instance_id: INSTANCE,
        },
        subscribed: None,
        read: false,
        hidden: false,
        saved: false,
        creator_blocked: false,
    }
}

fn names<'a>(views: &[PostView<'a>]) -> Vec<&'a str> {
    views.iter().map(|v| v.post.name.as_str()).collect()
}

fn init_data() -> Data {
    let mut tegan = local_user(1, TEGAN);
    tegan.admin = true;
    let john = local_user(2, JOHN);
    let mut data = Data {
        db: Database::empty(),
        local_user: tegan,
        blocked_local_user: john,
        inserted_post: PostId(2),
        inserted_bot_post: PostId(3),
        site: Site { listing_type: ListingType::Local, show_nsfw: false },
    };
    data.db.persons.push(person(TEGAN, "tegan"));
    data.db.persons.push(Person { bot_account: true, ..person(MYBOT, "mybot") });
    data.db.persons.push(person(JOHN, "john"));
    data.db.local_users.push(tegan);
    data.db.local_users.push(john);
    let all_languages: Vec<LanguageId> = (0..184).map(LanguageId).collect();
    data.set_languages(tegan.id, &all_languages);
    data.set_languages(john.id, &all_languages);
    data.db.communities.push(community(COMMUNITY, INSTANCE, "test_community_3", "nada"));
    data.db
        .community_aggregates
        .push(CommunityAggregates { community_id: COMMUNITY, users_active_month: 3 });
    data.create_post(Post {
        language_id: LanguageId(1),
        ..post(PostId(1), POST_BY_BLOCKED_PERSON, JOHN, COMMUNITY)
    });
    data.db.person_blocks.push(PersonBlock { person_id: TEGAN, target_id: JOHN });
    data.create_post(Post {
        language_id: LanguageId(47),
        ..post(PostId(2), POST, TEGAN, COMMUNITY)
    });
    data.create_post(post(PostId(3), POST_BY_BOT, MYBOT, COMMUNITY));
    data
}

#[test]
fn post_listing_with_person() {
    let mut data = init_data();
    data.local_user.show_bot_accounts = false;

    let read_post_listing = data.list(PostQuery {
        community_id: Some(COMMUNITY),
        ..data.default_post_query()
    });
    let single = data.read(Some(&data.local_user), false).unwrap();

    // Only the viewer's own post: the bot's and the blocked person's are missing
    assert_eq!(vec![single], read_post_listing);
    let rows = expected_rows();
    assert_eq!(expected_post_view(&rows), single);

    data.local_user.show_bot_accounts = true;
    let with_bots = data.list(PostQuery {
        community_id: Some(COMMUNITY),
        ..data.default_post_query()
    });
    assert_eq!(vec![POST_BY_BOT, POST], names(&with_bots));
}

#[test]
fn post_listing_no_person() {
    let data = init_data();
    let listing = data.list(PostQuery {
        community_id: Some(COMMUNITY),
        local_user: None,
        ..data.default_post_query()
    });
    let single = data.read(None, false).unwrap();
    let rows = expected_rows();
    let expected = expected_post_view(&rows);

    assert_eq!(vec![POST_BY_BOT, POST, POST_BY_BLOCKED_PERSON], names(&listing));
    assert_eq!(Some(&expected), listing.get(1));
    assert_eq!(expected, single);
}

#[test]
fn post_listing_title_only() {
    let mut data = init_data();
    let id = data.next_post_id();
    data.create_post(Post {
        language_id: LanguageId(47),
        body: Some("Post".to_string()),
        ..post(id, POST_WITH_ANOTHER_TITLE, TEGAN, COMMUNITY)
    });
    data.index_for("Post");

    let by_title_only = data.list(PostQuery {
        community_id: Some(COMMUNITY),
        local_user: None,
        search_term: Some("Post".to_string()),
        title_only: Some(true),
        ..data.default_post_query()
    });
    let listing = data.list(PostQuery {
        community_id: Some(COMMUNITY),
        local_user: None,
        search_term: Some("Post".to_string()),
        ..data.default_post_query()
    });

    assert_eq!(
        vec![POST_WITH_ANOTHER_TITLE, POST_BY_BOT, POST, POST_BY_BLOCKED_PERSON],
        names(&listing)
    );
    assert_eq!(vec![POST_BY_BOT, POST, POST_BY_BLOCKED_PERSON], names(&by_title_only));
}

#[test]
fn post_listing_block_community() {
    let mut data = init_data();
    data.db
        .community_blocks
        .push(CommunityPerson { community_id: COMMUNITY, person_id: TEGAN });
    let listing = data.list(PostQuery {
        community_id: Some(COMMUNITY),
        ..data.default_post_query()
    });
    assert_eq!(listing, vec![]);
}

#[test]
fn post_listing_like() {
    let mut data = init_data();
    let inserted_post_like =
        PostLike { post_id: data.inserted_post, person_id: TEGAN, score: 1 };
    data.db.post_likes.push(inserted_post_like);
    for counts in data.db.post_aggregates.iter_mut() {
        if counts.post_id == data.inserted_post {
            counts.score = 1;
            counts.upvotes = 1;
        }
    }

    let single = data.read(Some(&data.local_user), false).unwrap();
    let rows = expected_rows();
    let mut expected = expected_post_view(&rows);
    expected.my_vote = Some(1);
    expected.counts.score = 1;
    expected.counts.upvotes = 1;
    assert_eq!(expected, single);

    let quiet = LocalUser { show_bot_accounts: false, ..data.local_user };
    let listing = data.list(PostQuery {
        community_id: Some(COMMUNITY),
        local_user: Some(&quiet),
        ..data.default_post_query()
    });
    assert_eq!(vec![expected], listing);
}

#[test]
fn post_listing_liked_only() {
    let mut data = init_data();
    // Like both the bot post, and your own
    for post_id in [data.inserted_post, data.inserted_bot_post] {
        data.db.post_likes.push(PostLike { post_id, person_id: TEGAN, score: 1 });
    }

    let liked = data.list(PostQuery {
        community_id: Some(COMMUNITY),
        liked_only: Some(true),
        ..data.default_post_query()
    });
    // This should only include the bot post, not the one you created
    assert_eq!(vec![POST_BY_BOT], names(&liked));

    let disliked = data.list(PostQuery {
        community_id: Some(COMMUNITY),
        disliked_only: Some(true),
        ..data.default_post_query()
    });
    assert_eq!(disliked, vec![]);
}

#[test]
fn post_listing_saved_only() {
    let mut data = init_data();
    data.db.post_saveds.push(PostSaved {
        post_id: data.inserted_bot_post,
        person_id: TEGAN,
        published: 100,
    });
    let saved = data.list(PostQuery {
        community_id: Some(COMMUNITY),
        saved_only: Some(true),
        ..data.default_post_query()
    });
    assert_eq!(vec![POST_BY_BOT], names(&saved));
}

#[test]
fn creator_info() {
    let mut data = init_data();
    data.db
        .community_moderators
        .push(CommunityPerson { community_id: COMMUNITY, person_id: TEGAN });
    let listing = data
        .list(PostQuery { community_id: Some(COMMUNITY), ..data.default_post_query() })
        .into_iter()
        .map(|p| (p.creator.name.clone(), p.creator_is_moderator, p.creator_is_admin))
        .collect::<Vec<_>>();
    assert_eq!(
        vec![("mybot".to_owned(), false, false), ("tegan".to_owned(), true, true)],
        listing
    );
}

#[test]
fn post_listing_person_language() {
    const EL_POSTO: &str = "el posto";
    let mut data = init_data();
    let id = data.next_post_id();
    data.create_post(Post { language_id: SPANISH_ID, ..post(id, EL_POSTO, TEGAN, COMMUNITY) });

    // no language filters specified, all posts should be returned
    let all = data.list(data.default_post_query());
    assert_eq!(vec![EL_POSTO, POST_BY_BOT, POST], names(&all));

    let user = data.local_user.id;
    data.set_languages(user, &[FRENCH_ID, UNDETERMINED_ID]);

    let french = data.list(data.default_post_query());
    assert_eq!(vec![POST_BY_BOT, POST], names(&french));
    assert_eq!(Some(FRENCH_ID), french.get(1).map(|p| p.post.language_id));

    let french_und = data
        .list(data.default_post_query())
        .into_iter()
        .map(|p| (p.post.name.clone(), p.post.language_id))
        .collect::<Vec<_>>();
    assert_eq!(
        vec![(POST_BY_BOT.to_owned(), UNDETERMINED_ID), (POST.to_owned(), FRENCH_ID)],
        french_und
    );
}

#[test]
fn post_listings_removed() {
    let mut data = init_data();
    let id = data.inserted_bot_post;
    data.post_mut(id).removed = true;

    // Make sure you don't see the removed post in the results
    let no_admin = data.list(data.default_post_query());
    assert_eq!(vec![POST], names(&no_admin));

    // Removed bot post is shown to admins on its profile page
    data.local_user.admin = true;
    let is_admin =
        data.list(PostQuery { creator_id: Some(MYBOT), ..data.default_post_query() });
    assert_eq!(vec![POST_BY_BOT], names(&is_admin));

    data.local_user.admin = false;
    let profile = data.list(PostQuery { creator_id: Some(MYBOT), ..data.default_post_query() });
    assert_eq!(profile, vec![]);
}

#[test]
fn post_listings_deleted() {
    let mut data = init_data();
    let id = data.inserted_post;
    data.post_mut(id).deleted = true;

    // Deleted post is only shown to creator
    for (local_user, expect_contains_deleted) in [
        (None, false),
        (Some(&data.blocked_local_user), false),
        (Some(&data.local_user), true),
    ] {
        let contains_deleted = data
            .list(PostQuery { local_user, ..data.default_post_query() })
            .iter()
            .any(|p| p.post.id == data.inserted_post);
        assert_eq!(expect_contains_deleted, contains_deleted);
    }
}

#[test]
fn post_listings_hidden_community() {
    let mut data = init_data();
    data.community_mut().hidden = true;

    assert!(data.list(PostQuery::default()).is_empty());
    assert!(data.list(data.default_post_query()).is_empty());

    // Follow the community
    data.follow(COMMUNITY, TEGAN);
    assert!(!data.list(data.default_post_query()).is_empty());
}

#[test]
fn post_listing_instance_block() {
    const POST_FROM_BLOCKED_INSTANCE: &str = "post on blocked instance";
    let mut data = init_data();
    let blocked_instance = InstanceId(2);
    let other = CommunityId(2);
    data.db.communities.push(community(other, blocked_instance, "test_community_4", "none"));
    let id = data.next_post_id();
    data.create_post(Post {
        language_id: LanguageId(1),
        ..post(id, POST_FROM_BLOCKED_INSTANCE, MYBOT, other)
    });

    // no instance block, should return all posts
    let all = data.list(data.default_post_query());
    assert_eq!(vec![POST_FROM_BLOCKED_INSTANCE, POST_BY_BOT, POST], names(&all));

    // block the instance
    data.db
        .instance_blocks
        .push(InstanceBlock { person_id: TEGAN, instance_id: blocked_instance });
    let blocked = data.list(data.default_post_query());
    assert_eq!(vec![POST_BY_BOT, POST], names(&blocked));
    assert!(blocked.iter().all(|p| p.post.id != id));

    // after unblocking it should return all posts again
    data.db.instance_blocks.clear();
    let all = data.list(data.default_post_query());
    assert_eq!(vec![POST_FROM_BLOCKED_INSTANCE, POST_BY_BOT, POST], names(&all));
}

#[test]
fn pagination_includes_each_post_once() {
    let mut data = init_data();
    let inserted_community = CommunityId(2);
    data.db.communities.push(community(inserted_community, INSTANCE, "yes", "yes"));

    let mut inserted_post_ids = vec![];
    // 150 posts with varying non-correlating values for publish date, number of comments, and
    // featured
    for comments in 0..10i64 {
        for _ in 0..15 {
            let id = data.next_post_id();
            data.create_post(Post {
                featured_local: (comments % 2) == 0,
                featured_community: (comments % 2) == 0,
                published: 1_000_000_000 + id.0 as i64 - 1_000_000 * (comments % 3),
                ..post(id, "keep Christ in Christmas", TEGAN, inserted_community)
            });
            data.db.post_aggregates.last_mut().unwrap().comments = comments;
            inserted_post_ids.push(id);
        }
    }

    let options = PostQuery {
        community_id: Some(inserted_community),
        sort: Some(PostSortType::MostComments),
        limit: Some(10),
        ..Default::default()
    };

    let mut listed_post_ids = vec![];
    let mut page_after = None;
    loop {
        let post_listings = data.list(PostQuery { page_after, ..options.clone() });
        listed_post_ids.extend(post_listings.iter().map(|p| p.post.id));
        if let Some(p) = post_listings.into_iter().last() {
            page_after = Some(PaginationCursorData(p.counts));
        } else {
            break;
        }
    }

    // Check that backward pagination matches forward pagination
    let mut listed_post_ids_forward = listed_post_ids.clone();
    let mut page_before = None;
    loop {
        let post_listings = data.list(PostQuery {
            page_after: page_before,
            page_back: Some(true),
            ..options.clone()
        });
        let listed_post_ids = post_listings.iter().map(|p| p.post.id).collect::<Vec<_>>();
        let index = listed_post_ids_forward.len() - listed_post_ids.len();
        assert_eq!(listed_post_ids_forward.get(index..), listed_post_ids.get(..));
        listed_post_ids_forward.truncate(index);
        if let Some(p) = post_listings.into_iter().next() {
            page_before = Some(PaginationCursorData(p.counts));
        } else {
            break;
        }
    }

    inserted_post_ids.sort_unstable_by_key(|id| id.0);
    listed_post_ids.sort_unstable_by_key(|id| id.0);
    assert_eq!(inserted_post_ids, listed_post_ids);
}

#[test]
fn post_listings_hide_read() {
    let mut data = init_data();
    data.local_user.show_read_posts = false;
    data.db
        .post_reads
        .push(PostPerson { post_id: data.inserted_bot_post, person_id: TEGAN });

    // Make sure you don't see the read post in the results
    let hide_read = data.list(data.default_post_query());
    assert_eq!(vec![POST], names(&hide_read));

    // Test with the show_read override as true
    let show_read_true =
        data.list(PostQuery { show_read: Some(true), ..data.default_post_query() });
    assert_eq!(vec![POST_BY_BOT, POST], names(&show_read_true));

    // Test with the show_read override as false
    let show_read_false =
        data.list(PostQuery { show_read: Some(false), ..data.default_post_query() });
    assert_eq!(vec![POST], names(&show_read_false));
}

#[test]
fn post_listings_hide_hidden() {
    let mut data = init_data();
    data.db
        .post_hides
        .push(PostPerson { post_id: data.inserted_bot_post, person_id: TEGAN });

    // Make sure you don't see the hidden post in the results
    let hide_hidden = data.list(data.default_post_query());
    assert_eq!(vec![POST], names(&hide_hidden));

    // Make sure it does come back with the show_hidden option
    let show_hidden = data.list(PostQuery {
        sort: Some(PostSortType::New),
        local_user: Some(&data.local_user),
        show_hidden: Some(true),
        ..Default::default()
    });
    assert_eq!(vec![POST_BY_BOT, POST], names(&show_hidden));

    // Make sure that hidden field is true.
    assert!(show_hidden.first().is_some_and(|p| p.hidden));
}

#[test]
fn post_listings_hide_nsfw() {
    let mut data = init_data();
    let id = data.inserted_bot_post;
    data.post_mut(id).nsfw = true;

    // Make sure you don't see the nsfw post in the regular results
    let hide_nsfw = data.list(data.default_post_query());
    assert_eq!(vec![POST], names(&hide_nsfw));

    // Make sure it does come back with the show_nsfw option
    let show_nsfw = data.list(PostQuery {
        sort: Some(PostSortType::New),
        show_nsfw: Some(true),
        local_user: Some(&data.local_user),
        ..Default::default()
    });
    assert_eq!(vec![POST_BY_BOT, POST], names(&show_nsfw));

    // Make sure that nsfw field is true.
    assert!(show_nsfw.first().is_some_and(|p| p.post.nsfw));
}

#[test]
fn local_only_instance() {
    let mut data = init_data();
    data.community_mut().visibility = CommunityVisibility::LocalOnly;

    assert_eq!(0, data.list(PostQuery::default()).len());
    let authenticated = data.list(PostQuery {
        local_user: Some(&data.local_user),
        ..Default::default()
    });
    assert_eq!(2, authenticated.len());

    assert!(data.read(None, false).is_err());
    assert!(data.read(Some(&data.local_user), false).is_ok());
}

#[test]
fn post_listing_local_user_banned_from_community() {
    let mut data = init_data();
    let jill = PersonId(4);
    data.db.persons.push(person(jill, "jill"));
    let banned_user = local_user(3, jill);
    data.db.local_users.push(banned_user);
    data.db
        .community_person_bans
        .push(CommunityPerson { community_id: COMMUNITY, person_id: jill });
    let view = data.read(Some(&banned_user), false).unwrap();
    assert!(view.banned_from_community);
}

#[test]
fn post_listing_local_user_not_banned_from_community() {
    let data = init_data();
    let view = data.read(Some(&data.local_user), false).unwrap();
    assert!(!view.banned_from_community);
}

#[test]
fn post_listings_no_comments_only() {
    let mut data = init_data();
    for counts in data.db.post_aggregates.iter_mut() {
        if counts.post_id == data.inserted_post {
            counts.comments = 1;
        }
    }
    // Make sure it doesnt come back with the no_comments option
    let no_comments = data.list(PostQuery {
        sort: Some(PostSortType::New),
        no_comments_only: Some(true),
        local_user: Some(&data.local_user),
        ..Default::default()
    });
    assert_eq!(vec![POST_BY_BOT], names(&no_comments));
}

#[test]
fn post_listing_private_community() {
    let mut data = init_data();
    data.community_mut().visibility = CommunityVisibility::Private;

    // No posts returned without auth
    let listing =
        data.list(PostQuery { community_id: Some(COMMUNITY), ..Default::default() });
    assert_eq!(0, listing.len());
    assert!(data.read(None, false).is_err());

    // No posts returned for non-follower who is not admin
    data.local_user.admin = false;
    let listing = data.list(PostQuery {
        community_id: Some(COMMUNITY),
        local_user: Some(&data.local_user),
        ..Default::default()
    });
    assert_eq!(0, listing.len());
    assert!(data.read(Some(&data.local_user), false).is_err());

    // Admin can view content without following
    data.local_user.admin = true;
    let listing = data.list(PostQuery {
        community_id: Some(COMMUNITY),
        local_user: Some(&data.local_user),
        ..Default::default()
    });
    assert_eq!(2, listing.len());
    assert!(data.read(Some(&data.local_user), true).is_ok());
    data.local_user.admin = false;

    // User can view after following
    data.follow(COMMUNITY, TEGAN);
    let listing = data.list(PostQuery {
        community_id: Some(COMMUNITY),
        local_user: Some(&data.local_user),
        ..Default::default()
    });
    assert_eq!(2, listing.len());
    assert!(data.read(Some(&data.local_user), true).is_ok());
}

// Rules and laws on further values.

fn ids(views: &[PostView<'_>]) -> Vec<i32> {
    views.iter().map(|v| v.post.id.0).collect()
}

/// A second community on the same instance.
const OTHER: CommunityId = CommunityId(2);

/// Two followed communities, the first one larger, with posts that alternate between them.
fn subscribed_data() -> Data {
    let mut data = init_data();
    data.db.posts.clear();
    data.db.post_aggregates.clear();
    data.db.communities.push(community(OTHER, INSTANCE, "other", "other"));
    data.db
        .community_aggregates
        .push(CommunityAggregates { community_id: OTHER, users_active_month: 2 });
    data.follow(COMMUNITY, TEGAN);
    data.follow(OTHER, TEGAN);
    for id in 1..=8 {
        let place = if id % 2 == 0 { COMMUNITY } else { OTHER };
        data.create_post(post(PostId(id), "post", MYBOT, place));
    }
    data
}

fn subscribed_query(data: &Data) -> PostQuery<'_> {
    PostQuery { listing_type: Some(ListingType::Subscribed), ..data.default_post_query() }
}

fn two(offset: u64) -> Result<Window, QueryError> {
    Ok(Window { limit: 2, offset })
}

#[test]
fn a_bound_from_any_community_keeps_the_page() {
    let data = subscribed_data();
    let query = subscribed_query(&data);
    let window = Window { limit: 2, offset: 0 };

    let page = query.clone().list(&data.site, two(0), &data.db).unwrap();
    assert_eq!(vec![8, 7], ids(&page));

    for place in [COMMUNITY, OTHER] {
        let one = PostQuery {
            community_id: Some(place),
            community_id_just_for_prefetch: true,
            ..query.clone()
        };
        let plan = one.plan(&data.site, window);
        assert!(plan.for_upper_bound);
        let bound: Vec<PostAggregates> = plan.run(&data.db).iter().map(|v| v.counts).collect();
        let bounded = query.clone().with_bound(window, &bound);
        assert_eq!(Some(PaginationCursorData(bound[1])), bounded.page_before_or_equal);
        assert_eq!(vec![8, 7], ids(&bounded.plan(&data.site, window).run(&data.db)));
    }
}

#[test]
fn a_bound_keeps_the_page_going_back() {
    let data = subscribed_data();
    let query = PostQuery { page_back: Some(true), ..subscribed_query(&data) };
    let window = Window { limit: 2, offset: 0 };

    let page = query.clone().list(&data.site, two(0), &data.db).unwrap();
    assert_eq!(vec![2, 1], ids(&page));

    let bounded = query
        .prefetch_upper_bound_for_page_before(&data.site, &two(0), &data.db)
        .unwrap()
        .unwrap();
    // The last page of the larger community is 4, 2; its first post lies farthest from the end
    assert_eq!(Some(PostId(4)), bounded.page_before_or_equal.map(|c| c.0.post_id));
    assert_eq!(vec![2, 1], ids(&bounded.plan(&data.site, window).run(&data.db)));
}

#[test]
fn a_page_that_is_not_full_sets_no_bound() {
    let data = subscribed_data();
    let query = subscribed_query(&data);
    let window = Ok(Window { limit: 5, offset: 0 });
    let bounded = query
        .prefetch_upper_bound_for_page_before(&data.site, &window, &data.db)
        .unwrap();
    assert_eq!(Some(query.clone()), bounded);
    let page = query.list(&data.site, window, &data.db).unwrap();
    assert_eq!(vec![8, 7, 6, 5, 4], ids(&page));
}

#[test]
fn the_subscribed_listing_is_walked_completely() {
    let data = subscribed_data();
    let mut listed = vec![];
    let mut page_after = None;
    loop {
        let query = PostQuery { page_after, ..subscribed_query(&data) };
        let page = query.list(&data.site, Ok(Window { limit: 3, offset: 0 }), &data.db).unwrap();
        match page.last() {
            Some(last) => page_after = Some(PaginationCursorData(last.counts)),
            None => break,
        }
        listed.extend(ids(&page));
    }
    assert_eq!(vec![8, 7, 6, 5, 4, 3, 2, 1], listed);
}

#[test]
fn nothing_subscribed_means_no_posts() {
    let mut data = subscribed_data();
    data.db.community_followers.clear();
    let query = subscribed_query(&data);
    assert_eq!(None, data.db.largest_subscribed(TEGAN));
    assert_eq!(
        Ok(None),
        query.prefetch_upper_bound_for_page_before(&data.site, &two(0), &data.db)
    );
    assert_eq!(Ok(vec![]), query.list(&data.site, two(0), &data.db));
}

#[test]
fn saved_posts_of_the_subscribed_listing_come_in_the_order_of_saving() {
    let mut data = subscribed_data();
    // Post 8 is in the larger community. Post 7 was saved later, and lies beyond post 8.
    data.db.post_saveds.push(PostSaved { post_id: PostId(8), person_id: TEGAN, published: 10 });
    data.db.post_saveds.push(PostSaved { post_id: PostId(7), person_id: TEGAN, published: 20 });
    let query = PostQuery { saved_only: Some(true), ..subscribed_query(&data) };
    let window = Window { limit: 1, offset: 0 };
    let page = query.clone().list(&data.site, Ok(window), &data.db).unwrap();
    assert_eq!(vec![7], ids(&page));
    assert_eq!(page, query.plan(&data.site, window).run(&data.db));

    // No bound is looked for, and none is taken
    assert_eq!(
        Ok(Some(query.clone())),
        query.prefetch_upper_bound_for_page_before(&data.site, &Ok(window), &data.db)
    );
    assert_eq!(
        Step::Fetch(query.plan(&data.site, window)),
        query.after_largest(&data.site, window, Some(COMMUNITY))
    );
    let counts = vec![data.db.post_aggregates[7]];
    assert_eq!(query, query.clone().with_bound(window, &counts));

    // The other rules of the subscribed listing hold
    assert_eq!(Step::FindLargest(TEGAN), query.first_step(&data.site, &Ok(window)));
    let cursor = PaginationCursorData(data.db.post_aggregates[7]);
    let both = PostQuery { page_after: Some(cursor), ..query };
    assert_eq!(Err(QueryError::LegacyPagination), both.list(&data.site, two(1), &data.db));
}

#[test]
fn a_bound_is_found_for_any_query_of_a_user() {
    let data = subscribed_data();
    let window = two(0);
    // Neither a bound nor a listing type is needed to look for one
    let query = PostQuery {
        page_before_or_equal: Some(PaginationCursorData(data.db.post_aggregates[0])),
        listing_type: Some(ListingType::All),
        ..data.default_post_query()
    };
    let bounded =
        query.prefetch_upper_bound_for_page_before(&data.site, &window, &data.db).unwrap();
    // The bound is applied to the page of the community too, which ends with post 6
    let bound = bounded.unwrap().page_before_or_equal;
    assert_eq!(Some(PostId(6)), bound.map(|c| c.0.post_id));

    // What is wrong with the page comes before everything else
    let wrong = QueryError::BadPage("Page is < 1".to_string());
    let nobody = PostQuery::default();
    assert_eq!(
        Err(wrong.clone()),
        nobody.prefetch_upper_bound_for_page_before(&data.site, &Err(wrong), &data.db)
    );
    let cursor = PaginationCursorData(data.db.post_aggregates[0]);
    let both = PostQuery { page_after: Some(cursor), ..Default::default() };
    assert_eq!(
        Err(QueryError::LegacyPagination),
        both.prefetch_upper_bound_for_page_before(&data.site, &two(2), &data.db)
    );
}

#[test]
fn one_community_with_a_known_size_is_enough() {
    let mut data = subscribed_data();
    data.db.community_aggregates.retain(|c| c.community_id == OTHER);
    let query = subscribed_query(&data);
    let page = query.clone().list(&data.site, two(0), &data.db).unwrap();
    assert_eq!(vec![8, 7], ids(&page));
    // Without any, nothing is taken to be followed
    data.db.community_aggregates.clear();
    let query = subscribed_query(&data);
    assert_eq!(Ok(vec![]), query.list(&data.site, two(0), &data.db));
}

#[test]
fn visitors_have_no_lists_of_their_own() {
    let mut data = subscribed_data();
    data.db.post_saveds.push(PostSaved { post_id: PostId(8), person_id: TEGAN, published: 10 });
    data.db
        .community_moderators
        .push(CommunityPerson { community_id: COMMUNITY, person_id: TEGAN });
    let visitor = PostQuery { local_user: None, ..data.default_post_query() };
    let all = data.list(visitor.clone());
    assert_eq!(8, all.len());
    assert!(all.iter().all(|v| !v.saved));
    for query in [
        PostQuery { saved_only: Some(true), ..visitor.clone() },
        PostQuery { listing_type: Some(ListingType::Subscribed), ..visitor.clone() },
        PostQuery { listing_type: Some(ListingType::ModeratorView), ..visitor.clone() },
    ] {
        assert!(data.list(query).is_empty());
    }
}

#[test]
fn the_largest_community_has_the_most_active_users() {
    let mut data = subscribed_data();
    assert_eq!(Some(COMMUNITY), data.db.largest_subscribed(TEGAN));
    data.db.community_aggregates[1].users_active_month = 4;
    assert_eq!(Some(OTHER), data.db.largest_subscribed(TEGAN));
    assert_eq!(None, data.db.largest_subscribed(JOHN));
}

#[test]
fn an_offset_cannot_be_combined_with_a_cursor() {
    let data = subscribed_data();
    let cursor = PaginationCursorData(data.db.post_aggregates[5]);
    let query = PostQuery { page_after: Some(cursor), ..subscribed_query(&data) };
    assert_eq!(
        Err(QueryError::LegacyPagination),
        query.clone().list(&data.site, two(2), &data.db)
    );
    assert_eq!(
        "legacy pagination cannot be combined with v2 pagination",
        QueryError::LegacyPagination.message()
    );
    // Other listings take both
    let all = PostQuery { listing_type: Some(ListingType::All), ..query };
    assert_eq!(vec![3, 2], ids(&all.list(&data.site, two(2), &data.db).unwrap()));
}

#[test]
fn a_page_out_of_range_is_an_error() {
    let data = init_data();
    let wrong = QueryError::BadPage("Page is < 1".to_string());
    assert_eq!("Page is < 1", wrong.message());
    assert_eq!(
        Err(wrong.clone()),
        data.default_post_query().list(&data.site, Err(wrong), &data.db)
    );
}

#[test]
fn steps_lead_to_the_page() {
    let data = subscribed_data();
    let query = subscribed_query(&data);
    let window = Window { limit: 2, offset: 0 };

    assert_eq!(Step::FindLargest(TEGAN), query.first_step(&data.site, &Ok(window)));
    assert_eq!(Step::Nothing, query.after_largest(&data.site, window, None));
    let bound_plan = match query.after_largest(&data.site, window, Some(COMMUNITY)) {
        Step::FetchBound(plan) => plan,
        other => panic!("unexpected step {other:?}"),
    };
    let page = counts(&bound_plan.rows(&data.db));
    assert_eq!(vec![8, 6], page.iter().map(|c| c.post_id.0).collect::<Vec<_>>());
    let plan = match query.after_bound(&data.site, window, &page) {
        Step::Fetch(plan) => plan,
        other => panic!("unexpected step {other:?}"),
    };
    assert_eq!(vec![8, 7], ids(&plan.run(&data.db)));
}

/// Answers the query step by step.
fn drive<'a>(
    data: &'a Data,
    query: &PostQuery<'_>,
    window: Window,
) -> Result<Vec<PostView<'a>>, QueryError> {
    let mut step = query.first_step(&data.site, &Ok(window));
    loop {
        step = match step {
            Step::Fail(e) => return Err(e),
            Step::Nothing => return Ok(vec![]),
            Step::FindLargest(person) => {
                query.after_largest(&data.site, window, data.db.largest_subscribed(person))
            }
            Step::FetchBound(plan) => {
                let page = counts(&plan.rows(&data.db));
                query.after_bound(&data.site, window, &page)
            }
            Step::Fetch(plan) => return Ok(plan.run(&data.db)),
        };
    }
}

#[test]
fn every_path_of_steps_lists_what_the_query_lists() {
    let mut data = subscribed_data();
    data.db.post_saveds.push(PostSaved { post_id: PostId(7), person_id: TEGAN, published: 20 });
    let cursor = Some(PaginationCursorData(data.db.post_aggregates[5]));
    let subscribed = subscribed_query(&data);
    for query in [
        subscribed.clone(),
        PostQuery { page_back: Some(true), page_after: cursor, ..subscribed.clone() },
        PostQuery { page_after: cursor, ..subscribed.clone() },
        PostQuery { saved_only: Some(true), ..subscribed.clone() },
        PostQuery { local_user: Some(&data.blocked_local_user), ..subscribed.clone() },
        PostQuery { local_user: None, ..subscribed.clone() },
        PostQuery { community_id: Some(OTHER), ..subscribed.clone() },
        data.default_post_query(),
    ] {
        for limit in 1..4 {
            for offset in 0..2 {
                let window = Window { limit, offset };
                let listed = query.clone().list(&data.site, Ok(window), &data.db);
                assert_eq!(listed, drive(&data, &query, window));
            }
        }
    }
    // One who follows nothing, and one who combines an offset with a cursor
    let window = Window { limit: 2, offset: 1 };
    let john = PostQuery { local_user: Some(&data.blocked_local_user), ..subscribed.clone() };
    assert_eq!(Ok(vec![]), drive(&data, &john, window));
    let both = PostQuery { page_after: cursor, ..subscribed };
    assert_eq!(Err(QueryError::LegacyPagination), drive(&data, &both, window));
}

#[test]
fn first_steps() {
    let data = subscribed_data();
    let query = subscribed_query(&data);
    let wrong = QueryError::BadPage("Limit is > 50".to_string());
    assert_eq!(Step::Fail(wrong.clone()), query.first_step(&data.site, &Err(wrong)));
    let cursor = PaginationCursorData(data.db.post_aggregates[0]);
    let both = PostQuery { page_after: Some(cursor), ..query.clone() };
    assert_eq!(
        Step::Fail(QueryError::LegacyPagination),
        both.first_step(&data.site, &two(1))
    );
    // A community, a bound or the lack of a login makes the bound unnecessary
    for simple in [
        PostQuery { community_id: Some(OTHER), ..query.clone() },
        PostQuery { page_before_or_equal: Some(cursor), ..query.clone() },
        PostQuery { local_user: None, ..query.clone() },
        PostQuery { listing_type: Some(ListingType::All), ..query.clone() },
    ] {
        assert!(!simple.is_without_upper_bound());
        assert_eq!(
            Step::Fetch(simple.plan(&data.site, Window { limit: 2, offset: 1 })),
            simple.first_step(&data.site, &two(1))
        );
    }
}

#[test]
fn a_cursor_leads_back_to_its_place() {
    let data = init_data();
    let view = data.read(None, false).unwrap();
    let cursor = PaginationCursor::after_post(&view);
    assert_eq!("P2", cursor.0);
    assert_eq!(Ok(PaginationCursorData(view.counts)), cursor.read(&data.db));

    let query = PostQuery {
        page_after: Some(cursor.read(&data.db).unwrap()),
        local_user: None,
        ..data.default_post_query()
    };
    assert_eq!(vec![POST_BY_BLOCKED_PERSON], names(&data.list(query.clone())));
    let back = PostQuery { page_back: Some(true), ..query };
    assert_eq!(vec![POST_BY_BOT], names(&data.list(back)));
}

#[test]
fn cursors_that_lead_nowhere() {
    let data = init_data();
    let read = |text: &str| PaginationCursor(text.to_string()).read(&data.db);
    assert_eq!(Err(QueryError::NotFound), read("Pff"));
    assert_eq!(Err(QueryError::BadPaginationToken), read("P"));
    assert_eq!(Err(QueryError::BadPaginationToken), read(""));
    assert_eq!(Err(QueryError::BadPaginationToken), read("Pffffffff"));
    assert_eq!("Could not parse pagination token", QueryError::BadPaginationToken.message());
}

#[test]
fn a_bound_includes_its_post() {
    let data = init_data();
    let counts = data.db.post_aggregates[1];
    let query = PostQuery {
        page_before_or_equal: Some(PaginationCursorData(counts)),
        local_user: None,
        ..data.default_post_query()
    };
    assert_eq!(vec![3, 2], ids(&data.list(query.clone())));
    let back = PostQuery { page_back: Some(true), ..query };
    assert_eq!(vec![2, 1], ids(&data.list(back)));
}

#[test]
fn a_window_skips_and_cuts() {
    let data = init_data();
    let query = PostQuery { local_user: None, ..data.default_post_query() };
    let list = |q: &PostQuery<'_>, limit: u64, offset: u64| {
        ids(&q.clone().list(&data.site, Ok(Window { limit, offset }), &data.db).unwrap())
    };
    assert_eq!(vec![3, 2], list(&query, 2, 0));
    assert_eq!(vec![2, 1], list(&query, 2, 1));
    assert_eq!(vec![1], list(&query, 2, 2));
    assert_eq!(Vec::<i32>::new(), list(&query, 2, 3));
    assert_eq!(Vec::<i32>::new(), list(&query, 0, 0));
    assert_eq!(Vec::<i32>::new(), list(&query, u64::MAX, u64::MAX));
    let back = PostQuery { page_back: Some(true), ..query };
    assert_eq!(vec![2, 1], list(&back, 2, 0));
    assert_eq!(vec![3, 2], list(&back, 2, 1));
}

#[test]
fn sorts() {
    let mut data = init_data();
    for (i, counts) in data.db.post_aggregates.iter_mut().enumerate() {
        // Post 1, 2, 3 have rank 1, 2, 3 rotated by one step per key
        let at = |k: usize| ((i + k) % 3) as i64;
        counts.hot_rank = at(0);
        counts.hot_rank_active = at(1);
        counts.scaled_rank = at(2);
        counts.controversy_rank = at(0);
        counts.newest_comment_time = at(1);
        counts.comments = at(2);
        counts.score = at(1);
    }
    let list = |sort: Option<PostSortType>| {
        let query = PostQuery { sort, local_user: None, ..data.default_post_query() };
        ids(&data.list(query))
    };
    assert_eq!(vec![3, 2, 1], list(None));
    assert_eq!(vec![3, 2, 1], list(Some(PostSortType::Hot)));
    assert_eq!(vec![2, 1, 3], list(Some(PostSortType::Active)));
    assert_eq!(vec![1, 3, 2], list(Some(PostSortType::Scaled)));
    assert_eq!(vec![3, 2, 1], list(Some(PostSortType::Controversial)));
    assert_eq!(vec![3, 2, 1], list(Some(PostSortType::New)));
    assert_eq!(vec![1, 2, 3], list(Some(PostSortType::Old)));
    assert_eq!(vec![2, 1, 3], list(Some(PostSortType::NewComments)));
    assert_eq!(vec![1, 3, 2], list(Some(PostSortType::MostComments)));
    assert_eq!(vec![2, 1, 3], list(Some(PostSortType::TopAll)));
}

#[test]
fn ties_fall_to_the_newest_and_then_to_the_id() {
    let mut data = init_data();
    data.db.post_aggregates[0].published = 5;
    data.db.post_aggregates[1].published = 4;
    data.db.post_aggregates[2].published = 4;
    let list = |sort: PostSortType| {
        let query = PostQuery { sort: Some(sort), local_user: None, ..Default::default() };
        ids(&data.list(query))
    };
    assert_eq!(vec![1, 3, 2], list(PostSortType::Hot));
    assert_eq!(vec![3, 2, 1], list(PostSortType::Old));
}

#[test]
fn periods_of_the_top_sorts() {
    let mut data = init_data();
    let hour: i64 = 3_600_000_000;
    let spans = [
        (PostSortType::TopHour, Interval { microseconds: hour, days: 0, months: 0 }),
        (PostSortType::TopSixHour, Interval { microseconds: 6 * hour, days: 0, months: 0 }),
        (PostSortType::TopTwelveHour, Interval { microseconds: 12 * hour, days: 0, months: 0 }),
        (PostSortType::TopDay, Interval { microseconds: 0, days: 1, months: 0 }),
        (PostSortType::TopWeek, Interval { microseconds: 0, days: 7, months: 0 }),
        (PostSortType::TopMonth, Interval { microseconds: 0, days: 0, months: 1 }),
        (PostSortType::TopThreeMonths, Interval { microseconds: 0, days: 0, months: 3 }),
        (PostSortType::TopSixMonths, Interval { microseconds: 0, days: 0, months: 6 }),
        (PostSortType::TopNineMonths, Interval { microseconds: 0, days: 0, months: 9 }),
        (PostSortType::TopYear, Interval { microseconds: 0, days: 0, months: 12 }),
    ];
    for (sort, span) in spans {
        assert_eq!(Some(span), period(sort));
        // Post 2 was published at the cutoff, post 3 after it
        let other = Interval { microseconds: 1, days: 1, months: 1 };
        data.db.cutoffs =
            vec![Cutoff { interval: other, at: 0 }, Cutoff { interval: span, at: 2 }];
        let query = PostQuery { sort: Some(sort), local_user: None, ..data.default_post_query() };
        assert_eq!(vec![3], ids(&data.list(query)));
    }
    assert_eq!(None, period(PostSortType::TopAll));
    assert_eq!(None, period(PostSortType::Hot));
}

#[test]
fn featured_posts_come_first() {
    let mut data = init_data();
    data.db.post_aggregates[0].featured_local = true;
    data.db.post_aggregates[1].featured_community = true;
    let site = PostQuery { local_user: None, ..data.default_post_query() };
    assert_eq!(vec![1, 3, 2], ids(&data.list(site.clone())));
    let one = PostQuery { community_id: Some(COMMUNITY), ..site };
    assert_eq!(vec![2, 3, 1], ids(&data.list(one.clone())));
    let prefetch = PostQuery { community_id_just_for_prefetch: true, ..one };
    assert_eq!(vec![1, 3, 2], ids(&data.list(prefetch)));
}

#[test]
fn saved_posts_come_in_the_order_of_saving() {
    let mut data = init_data();
    data.db.post_saveds.push(PostSaved { post_id: PostId(3), person_id: TEGAN, published: 10 });
    data.db.post_saveds.push(PostSaved { post_id: PostId(2), person_id: TEGAN, published: 20 });
    data.db.post_saveds.push(PostSaved { post_id: PostId(1), person_id: JOHN, published: 30 });
    let query = PostQuery { saved_only: Some(true), ..data.default_post_query() };
    let views = data.list(query.clone());
    assert_eq!(vec![2, 3], ids(&views));
    assert!(views.iter().all(|v| v.saved));
    // Nobody is logged in, so nothing is saved
    assert!(data.list(PostQuery { local_user: None, ..query }).is_empty());
}

#[test]
fn read_posts_stay_among_saved_posts_and_on_profiles() {
    let mut data = init_data();
    data.local_user.show_read_posts = false;
    data.db.post_reads.push(PostPerson { post_id: PostId(3), person_id: TEGAN });
    data.db.post_saveds.push(PostSaved { post_id: PostId(3), person_id: TEGAN, published: 1 });
    assert_eq!(vec![2], ids(&data.list(data.default_post_query())));
    let saved = PostQuery { saved_only: Some(true), ..data.default_post_query() };
    let views = data.list(saved);
    assert_eq!(vec![3], ids(&views));
    assert!(views[0].read);
    let profile = PostQuery { creator_id: Some(MYBOT), ..data.default_post_query() };
    assert_eq!(vec![3], ids(&data.list(profile)));
}

#[test]
fn hidden_posts_stay_on_profiles() {
    let mut data = init_data();
    data.db.post_hides.push(PostPerson { post_id: PostId(3), person_id: TEGAN });
    let profile = PostQuery { creator_id: Some(MYBOT), ..data.default_post_query() };
    let views = data.list(profile);
    assert_eq!(vec![3], ids(&views));
    assert!(views[0].hidden);
}

#[test]
fn disliked_posts() {
    let mut data = init_data();
    for (id, score) in [(1, -1), (2, -1), (3, 1)] {
        data.db.post_likes.push(PostLike { post_id: PostId(id), person_id: TEGAN, score });
    }
    data.db.person_blocks.clear();
    let disliked = PostQuery { disliked_only: Some(true), ..data.default_post_query() };
    let views = data.list(disliked.clone());
    assert_eq!(vec![1], ids(&views));
    assert_eq!(Some(-1), views[0].my_vote);
    // What is liked takes precedence
    let both = PostQuery { liked_only: Some(true), ..disliked.clone() };
    assert_eq!(vec![3], ids(&data.list(both)));
    // Without a login neither counts
    assert_eq!(vec![3, 2, 1], ids(&data.list(PostQuery { local_user: None, ..disliked })));
}

#[test]
fn scheduled_posts_are_for_their_creator() {
    let mut data = init_data();
    let id = data.inserted_post;
    data.post_mut(id).scheduled_publish_time = Some(1_000);
    assert_eq!(vec![3, 2], ids(&data.list(data.default_post_query())));
    let john =
        PostQuery { local_user: Some(&data.blocked_local_user), ..data.default_post_query() };
    assert_eq!(vec![3, 1], ids(&data.list(john)));
    let nobody = PostQuery { local_user: None, ..data.default_post_query() };
    assert_eq!(vec![3, 1], ids(&data.list(nobody)));
}

#[test]
fn deleted_communities_are_not_listed() {
    let mut data = init_data();
    data.community_mut().deleted = true;
    assert!(data.list(data.default_post_query()).is_empty());
    // Reading is for the creator, and for those who moderate
    assert!(data.read(Some(&data.local_user), false).is_ok());
    assert_eq!(Err(QueryError::NotFound), data.read(Some(&data.blocked_local_user), false));
    assert!(data.read(Some(&data.blocked_local_user), true).is_ok());
}

#[test]
fn removed_communities_are_shown_to_admins_on_profiles() {
    let mut data = init_data();
    data.community_mut().removed = true;
    assert!(data.list(data.default_post_query()).is_empty());
    let profile = PostQuery { creator_id: Some(MYBOT), ..data.default_post_query() };
    assert_eq!(vec![3], ids(&data.list(profile)));
    assert_eq!(Err(QueryError::NotFound), data.read(None, false));
    assert!(data.read(None, true).is_ok());
}

#[test]
fn removed_and_deleted_posts_can_be_read_by_their_creator() {
    let mut data = init_data();
    let id = data.inserted_post;
    data.post_mut(id).removed = true;
    data.post_mut(id).deleted = true;
    assert!(data.read(Some(&data.local_user), false).is_ok());
    assert_eq!(Err(QueryError::NotFound), data.read(Some(&data.blocked_local_user), false));
    assert_eq!(Err(QueryError::NotFound), data.read(None, false));
    assert!(data.read(None, true).is_ok());
    assert_eq!("Record not found", QueryError::NotFound.message());
}

#[test]
fn what_is_listed_can_be_read() {
    let mut data = init_data();
    data.community_mut().visibility = CommunityVisibility::Private;
    for view in data.list(data.default_post_query()) {
        let read = PostView::read(&data.db, view.post.id, Some(&data.local_user), true);
        assert_eq!(Ok(view), read);
    }
}

#[test]
fn pending_followers_do_not_see_private_communities() {
    let mut data = init_data();
    data.community_mut().visibility = CommunityVisibility::Private;
    data.local_user.admin = false;
    data.db.community_followers.push(CommunityFollower {
        community_id: COMMUNITY,
        person_id: TEGAN,
        state: CommunityFollowerState::Pending,
    });
    assert!(data.list(data.default_post_query()).is_empty());
    assert_eq!(Err(QueryError::NotFound), data.read(Some(&data.local_user), false));
    let seen = data.read(Some(&data.local_user), true).unwrap();
    assert_eq!(Some(CommunityFollowerState::Pending), seen.subscribed);
}

#[test]
fn listing_types() {
    let mut data = subscribed_data();
    data.db.community_followers.retain(|f| f.community_id == OTHER);
    data.db
        .community_moderators
        .push(CommunityPerson { community_id: COMMUNITY, person_id: TEGAN });
    data.db.communities[1].local = false;
    data.db.communities[1].hidden = true;
    let list = |listing_type: Option<ListingType>| {
        ids(&data.list(PostQuery { listing_type, ..data.default_post_query() }))
    };
    assert_eq!(vec![8, 6, 4, 2], list(None));
    assert_eq!(vec![8, 6, 4, 2], list(Some(ListingType::Local)));
    assert_eq!(vec![8, 7, 6, 5, 4, 3, 2, 1], list(Some(ListingType::All)));
    assert_eq!(vec![7, 5, 3, 1], list(Some(ListingType::Subscribed)));
    assert_eq!(vec![8, 6, 4, 2], list(Some(ListingType::ModeratorView)));
    // To others the hidden community does not show
    let nobody = PostQuery {
        listing_type: Some(ListingType::All),
        local_user: None,
        ..data.default_post_query()
    };
    assert_eq!(vec![8, 6, 4, 2], ids(&data.list(nobody)));
}

#[test]
fn the_moderator_view_ignores_blocks_and_languages() {
    let mut data = init_data();
    let user = data.local_user.id;
    data.set_languages(user, &[]);
    data.db
        .community_moderators
        .push(CommunityPerson { community_id: COMMUNITY, person_id: TEGAN });
    assert!(data.list(data.default_post_query()).is_empty());
    let query = PostQuery {
        listing_type: Some(ListingType::ModeratorView),
        ..data.default_post_query()
    };
    let views = data.list(query);
    assert_eq!(vec![3, 2, 1], ids(&views));
    assert!(views[2].creator_blocked);
    assert!(!views[1].creator_blocked);
}

#[test]
fn searches() {
    let mut data = init_data();
    let id = data.inserted_post;
    data.post_mut(id).url = Some("http://example.com/a".to_string());
    let find = |data: &Data, term: &str, url_only: bool| {
        ids(&data.list(PostQuery {
            search_term: Some(term.to_string()),
            url_only: Some(url_only),
            ..data.default_post_query()
        }))
    };
    assert_eq!(vec![2], find(&data, "http://example.com/a", true));
    assert!(find(&data, "http://example.com/", true).is_empty());
    data.index_for("BOT");
    assert_eq!(vec![3], find(&data, "BOT", false));
    assert!(find(&data, "post", false).is_empty());
    // A search leaves out deleted posts even for their creator, a search for an address does not
    data.index_for("post");
    assert_eq!(vec![3, 2], find(&data, "post", false));
    data.post_mut(id).deleted = true;
    assert_eq!(vec![3], find(&data, "post", false));
    assert_eq!(vec![2], find(&data, "http://example.com/a", true));
}

#[test]
fn nsfw_settings() {
    let mut data = init_data();
    data.community_mut().nsfw = true;
    assert!(data.list(data.default_post_query()).is_empty());
    data.local_user.show_nsfw = true;
    assert_eq!(vec![3, 2], ids(&data.list(data.default_post_query())));
    let hide = PostQuery { show_nsfw: Some(false), ..data.default_post_query() };
    assert!(data.list(hide).is_empty());
    // Visitors go by the setting of the site
    assert!(data.list(PostQuery { local_user: None, ..data.default_post_query() }).is_empty());
    data.site.show_nsfw = true;
    let nobody = PostQuery { local_user: None, ..data.default_post_query() };
    assert_eq!(vec![3, 2, 1], ids(&data.list(nobody)));
}

#[test]
fn what_a_view_shows() {
    let mut data = init_data();
    let id = data.inserted_post;
    let link = "http://example.com/image.png".to_string();
    data.post_mut(id).thumbnail_url = Some(link.clone());
    data.db.image_details.push(ImageDetails { link: "http://example.com/other".to_string() });
    data.db.image_details.push(ImageDetails { link: link.clone() });
    data.db.post_aggregates[1].comments = 7;
    data.db.person_post_aggregates.push(PersonPostAggregates {
        person_id: JOHN,
        post_id: id,
        read_comments: 3,
    });
    data.db
        .community_person_bans
        .push(CommunityPerson { community_id: COMMUNITY, person_id: TEGAN });
    data.db.person_blocks.push(PersonBlock { person_id: JOHN, target_id: TEGAN });
    data.db.post_saveds.push(PostSaved { post_id: id, person_id: JOHN, published: 1 });
    data.db.community_followers.push(CommunityFollower {
        community_id: COMMUNITY,
        person_id: JOHN,
        state: CommunityFollowerState::ApprovalRequired,
    });

    let view = data.read(Some(&data.blocked_local_user), false).unwrap();
    assert_eq!(Some(link.as_str()), view.image_details.map(|i| i.link.as_str()));
    assert_eq!(4, view.unread_comments);
    assert_eq!(7, view.counts.comments);
    assert!(view.creator_banned_from_community);
    assert!(!view.banned_from_community);
    assert!(view.creator_blocked);
    assert!(view.saved);
    assert_eq!(Some(CommunityFollowerState::ApprovalRequired), view.subscribed);

    let nobody = data.read(None, false).unwrap();
    assert_eq!(7, nobody.unread_comments);
    assert!(!nobody.creator_blocked);
    assert!(!nobody.saved);
    assert_eq!(None, nobody.subscribed);
}

#[test]
fn posts_without_a_creator_or_a_community_are_passed_over() {
    let mut data = init_data();
    data.db.persons.retain(|p| p.id != MYBOT);
    assert_eq!(vec![2], ids(&data.list(data.default_post_query())));
    data.db.communities.clear();
    assert!(data.list(data.default_post_query()).is_empty());
    assert_eq!(Err(QueryError::NotFound), data.read(Some(&data.local_user), true));
}

#[test]
fn snapshots_with_repeated_keys_are_not_in_order() {
    assert!(Database::empty().is_wf());
    let mut data = init_data();
    assert!(data.db.is_wf());
    data.db.posts.push(post(PostId(1), "again", TEGAN, COMMUNITY));
    assert!(!data.db.is_wf());

    let mut data = init_data();
    let day = Interval { microseconds: 0, days: 1, months: 0 };
    data.db.cutoffs = vec![Cutoff { interval: day, at: 1 }, Cutoff { interval: day, at: 2 }];
    assert!(!data.db.is_wf());

    let mut data = init_data();
    data.db.post_aggregates[1].comments = i64::MIN;
    data.db.person_post_aggregates.push(PersonPostAggregates {
        person_id: TEGAN,
        post_id: PostId(2),
        read_comments: 1,
    });
    assert!(!data.db.is_wf());
}
