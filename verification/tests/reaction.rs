use calculator::reaction::{add_reaction, ReactionType, TweetCounters, TwitterError};

#[test]
fn a_like_increments_only_the_like_counter() {
    let mut tweet = TweetCounters {
        likes: 3,
        dislikes: 9,
    };
    assert_eq!(
        add_reaction(&mut tweet, ReactionType::Like),
        Ok(ReactionType::Like)
    );
    assert_eq!(
        tweet,
        TweetCounters {
            likes: 4,
            dislikes: 9,
        }
    );
}

#[test]
fn a_dislike_increments_only_the_dislike_counter() {
    let mut tweet = TweetCounters {
        likes: 3,
        dislikes: 9,
    };
    assert_eq!(
        add_reaction(&mut tweet, ReactionType::Dislike),
        Ok(ReactionType::Dislike)
    );
    assert_eq!(
        tweet,
        TweetCounters {
            likes: 3,
            dislikes: 10,
        }
    );
}

#[test]
fn a_saturated_like_counter_reports_the_maximum() {
    let mut tweet = TweetCounters {
        likes: u64::MAX,
        dislikes: 0,
    };
    assert_eq!(
        add_reaction(&mut tweet, ReactionType::Like),
        Err(TwitterError::MaxLikesReached)
    );
    assert_eq!(
        tweet,
        TweetCounters {
            likes: u64::MAX,
            dislikes: 0,
        }
    );
}

#[test]
fn a_saturated_dislike_counter_reports_the_maximum() {
    let mut tweet = TweetCounters {
        likes: 0,
        dislikes: u64::MAX,
    };
    assert_eq!(
        add_reaction(&mut tweet, ReactionType::Dislike),
        Err(TwitterError::MaxDislikesReached)
    );
    assert_eq!(
        tweet,
        TweetCounters {
            likes: 0,
            dislikes: u64::MAX,
        }
    );
}

#[test]
fn counters_one_below_the_maximum_still_grow() {
    let mut tweet = TweetCounters {
        likes: u64::MAX - 1,
        dislikes: u64::MAX - 1,
    };
    assert_eq!(
        add_reaction(&mut tweet, ReactionType::Like),
        Ok(ReactionType::Like)
    );
    assert_eq!(
        add_reaction(&mut tweet, ReactionType::Dislike),
        Ok(ReactionType::Dislike)
    );
    assert_eq!(
        tweet,
        TweetCounters {
            likes: u64::MAX,
            dislikes: u64::MAX,
        }
    );
}
