//! Channels: the requests that create, list, join and leave them, and the
//! checks made before the channel store is asked to change anything.

use vstd::prelude::*;

verus! {

/// A request to open a channel.
#[derive(Clone, Debug, PartialEq)]
pub struct CreateChannelRequest {
    pub ch_name: String,
    pub ch_desc: String,
    pub creator_id: i64,
    pub is_private: bool,
}

/// A request for the channels a user created.
#[derive(Clone, Copy, Debug, PartialEq)]
pub struct ListChanReq {
    pub creator_id: i64,
}

#[derive(Clone, Copy, Debug, PartialEq)]
pub struct JoinChanReq {
    pub user_id: i64,
}

#[derive(Clone, Copy, Debug, PartialEq)]
pub struct LeaveChanReq {
    pub user_id: i64,
}

/// What the channel store is asked to create.
#[derive(Clone, Debug, PartialEq)]
pub struct CreateChannel {
    pub ch_name: String,
    pub ch_description: String,
    pub creator_id: i64,
    pub is_private: bool,
    pub is_archived: bool,
}

/// Why a channel operation was refused.
#[derive(PartialEq, Eq, Structural, Clone, Copy, Debug)]
pub enum ChannelError {
    ChannelNotFound,
    UserNotFound(i64),
}

/// The record for a new channel: named, described, owned and shared as
/// requested, and not archived. Refused when the creator is unknown.
pub fn channel_record(req: &CreateChannelRequest, creator_found: bool) -> (r: Result<
    CreateChannel,
    ChannelError,
>)
    ensures
        !creator_found ==> r == Err::<CreateChannel, _>(ChannelError::UserNotFound(req.creator_id)),
        creator_found ==> r == Ok::<_, ChannelError>(
            CreateChannel {
                ch_name: req.ch_name,
                ch_description: req.ch_desc,
                creator_id: req.creator_id,
                is_private: req.is_private,
                is_archived: false,
            },
        ),
{
    if !creator_found {
        return Err(ChannelError::UserNotFound(req.creator_id));
    }
    Ok(
        CreateChannel {
            ch_name: req.ch_name.clone(),
            ch_description: req.ch_desc.clone(),
            creator_id: req.creator_id,
            is_private: req.is_private,
            is_archived: false,
        },
    )
}

/// Whether `user_id` may join or leave a channel: the channel must exist,
/// then the user.
pub fn check_membership_change(user_id: i64, channel_found: bool, user_found: bool) -> (r: Result<
    (),
    ChannelError,
>)
    ensures
        r == (if !channel_found {
            Err(ChannelError::ChannelNotFound)
        } else if !user_found {
            Err(ChannelError::UserNotFound(user_id))
        } else {
            Ok(())
        }),
{
    if !channel_found {
        Err(ChannelError::ChannelNotFound)
    } else if !user_found {
        Err(ChannelError::UserNotFound(user_id))
    } else {
        Ok(())
    }
}

} // verus!
