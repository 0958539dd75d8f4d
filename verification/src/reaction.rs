use vstd::prelude::*;

verus! {

/// The reaction kinds a post can receive.
#[derive(Clone, Copy, PartialEq, Eq, Structural, Debug)]
pub enum ReactionType {
    Like,
    Dislike,
}

/// The failure outcomes of adding a reaction.
#[derive(Clone, Copy, PartialEq, Eq, Structural, Debug)]
pub enum TwitterError {
    MaxLikesReached,
    MaxDislikesReached,
}

/// A post's reaction counters.
#[derive(Clone, Copy, PartialEq, Eq, Structural, Debug)]
pub struct TweetCounters {
    pub likes: u64,
    pub dislikes: u64,
}

/// Decides the effect of one new reaction on a post's counters. The ledger
/// host that owns the accounts hands in the current counters, applies the
/// updated ones, and stores the returned kind on the new reaction record
/// together with the reacting party's identity and the target post, which
/// only the host knows.
///
/// Exactly one counter grows, by exactly one, and only when it has not yet
/// reached the maximum representable value; at the maximum, the matching
/// saturation error is reported and nothing changes.
pub fn add_reaction(tweet: &mut TweetCounters, reaction: ReactionType) -> (r: Result<
    ReactionType,
    TwitterError,
>)
    ensures
        reaction == ReactionType::Like && old(tweet).likes == u64::MAX ==> r == Err::<
            ReactionType,
            TwitterError,
        >(TwitterError::MaxLikesReached) && *final(tweet) == *old(tweet),
        reaction == ReactionType::Like && old(tweet).likes < u64::MAX ==> r == Ok::<
            ReactionType,
            TwitterError,
        >(reaction) && *final(tweet) == (TweetCounters {
            likes: (old(tweet).likes + 1) as u64,
            dislikes: old(tweet).dislikes,
        }),
        reaction == ReactionType::Dislike && old(tweet).dislikes == u64::MAX ==> r == Err::<
            ReactionType,
            TwitterError,
        >(TwitterError::MaxDislikesReached) && *final(tweet) == *old(tweet),
        reaction == ReactionType::Dislike && old(tweet).dislikes < u64::MAX ==> r == Ok::<
            ReactionType,
            TwitterError,
        >(reaction) && *final(tweet) == (TweetCounters {
            likes: old(tweet).likes,
            dislikes: (old(tweet).dislikes + 1) as u64,
        }),
{
    match reaction {
        ReactionType::Like => {
            if tweet.likes == u64::MAX {
                Err(TwitterError::MaxLikesReached)
            } else {
                tweet.likes = tweet.likes + 1;
                Ok(ReactionType::Like)
            }
        },
        ReactionType::Dislike => {
            if tweet.dislikes == u64::MAX {
                Err(TwitterError::MaxDislikesReached)
            } else {
                tweet.dislikes = tweet.dislikes + 1;
                Ok(ReactionType::Dislike)
            }
        },
    }
}

} // verus!
