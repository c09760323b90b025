//! Chatroom metadata records carried in channel responses.
use vstd::prelude::*;

verus! {

/// Chatroom meta, such as the room's profile or notice.
///
/// `meta_type` stays an integer because the protocol may send types that
/// [`ChannelMetaType`] does not list; [`ChannelMeta::known_type`] reads it.
#[derive(Clone, Debug, PartialEq, Eq)]
pub struct ChannelMeta {
    /// Meta type. See [`ChannelMetaType`] for the predefined ones.
    pub meta_type: i32,
    pub revision: i64,
    /// Meta user id.
    pub author_id: i64,
    /// Update time in Unix time.
    pub updated_at: i64,
    /// JSON or plain string content, depending on the type.
    pub content: String,
}

/// Predefined chatroom meta types.
#[derive(PartialEq, Eq, Structural, Clone, Copy, Debug)]
pub enum ChannelMetaType {
    Notice,
    Group,
    Title,
    Profile,
    Tv,
    Privilege,
    TvLive,
    PlusBackground,
    LiveTalkInfo,
    LiveTalkCount,
    OpenChatChat,
    Bot,
}

/// The integer by which the protocol sends each meta type.
pub open spec fn meta_type_code(t: ChannelMetaType) -> i32 {
    match t {
        ChannelMetaType::Notice => 1,
        ChannelMetaType::Group => 2,
        ChannelMetaType::Title => 3,
        ChannelMetaType::Profile => 4,
        ChannelMetaType::Tv => 5,
        ChannelMetaType::Privilege => 6,
        ChannelMetaType::TvLive => 7,
        ChannelMetaType::PlusBackground => 8,
        ChannelMetaType::LiveTalkInfo => 11,
        ChannelMetaType::LiveTalkCount => 12,
        ChannelMetaType::OpenChatChat => 13,
        ChannelMetaType::Bot => 14,
    }
}

impl ChannelMetaType {
    /// The protocol's integer for this type.
    pub fn code(&self) -> (c: i32)
        ensures
            c == meta_type_code(*self),
    {
        match self {
            ChannelMetaType::Notice => 1,
            ChannelMetaType::Group => 2,
            ChannelMetaType::Title => 3,
            ChannelMetaType::Profile => 4,
            ChannelMetaType::Tv => 5,
            ChannelMetaType::Privilege => 6,
            ChannelMetaType::TvLive => 7,
            ChannelMetaType::PlusBackground => 8,
            ChannelMetaType::LiveTalkInfo => 11,
            ChannelMetaType::LiveTalkCount => 12,
            ChannelMetaType::OpenChatChat => 13,
            ChannelMetaType::Bot => 14,
        }
    }

    /// The type that the protocol sends as `code`, if it is a predefined one.
    pub fn from_code(code: i32) -> (t: Option<ChannelMetaType>)
        ensures
            match t {
                Some(t) => meta_type_code(t) == code,
                None => forall|u: ChannelMetaType| meta_type_code(u) != code,
            },
    {
        match code {
            1 => Some(ChannelMetaType::Notice),
            2 => Some(ChannelMetaType::Group),
            3 => Some(ChannelMetaType::Title),
            4 => Some(ChannelMetaType::Profile),
            5 => Some(ChannelMetaType::Tv),
            6 => Some(ChannelMetaType::Privilege),
            7 => Some(ChannelMetaType::TvLive),
            8 => Some(ChannelMetaType::PlusBackground),
            11 => Some(ChannelMetaType::LiveTalkInfo),
            12 => Some(ChannelMetaType::LiveTalkCount),
            13 => Some(ChannelMetaType::OpenChatChat),
            14 => Some(ChannelMetaType::Bot),
            _ => None,
        }
    }
}

impl ChannelMeta {
    /// The predefined type of this meta, if its `meta_type` is one.
    pub fn known_type(&self) -> (t: Option<ChannelMetaType>)
        ensures
            match t {
                Some(t) => meta_type_code(t) == self.meta_type,
                None => forall|u: ChannelMetaType| meta_type_code(u) != self.meta_type,
            },
    {
        ChannelMetaType::from_code(self.meta_type)
    }
}

/// Distinct meta types have distinct codes, so `from_code` of a type's
/// code can only be that type.
pub proof fn meta_type_codes_are_distinct(a: ChannelMetaType, b: ChannelMetaType)
    ensures
        meta_type_code(a) == meta_type_code(b) ==> a == b,
{
}

} // verus!
