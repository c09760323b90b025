use talk_loco_client::channel_info::{ChannelMeta, ChannelMetaType};

#[test]
fn meta_type_codes() {
    assert_eq!(ChannelMetaType::Notice.code(), 1);
    assert_eq!(ChannelMetaType::PlusBackground.code(), 8);
    assert_eq!(ChannelMetaType::LiveTalkInfo.code(), 11);
    assert_eq!(ChannelMetaType::Bot.code(), 14);
}

#[test]
fn meta_type_from_code() {
    assert_eq!(ChannelMetaType::from_code(3), Some(ChannelMetaType::Title));
    assert_eq!(ChannelMetaType::from_code(13), Some(ChannelMetaType::OpenChatChat));
    assert_eq!(ChannelMetaType::from_code(9), None);
    assert_eq!(ChannelMetaType::from_code(0), None);
    assert_eq!(ChannelMetaType::from_code(-1), None);
}

#[test]
fn meta_known_type() {
    let meta = ChannelMeta {
        meta_type: 4,
        revision: 2,
        author_id: 10,
        updated_at: 1_700_000_000,
        content: String::from("{}"),
    };
    assert_eq!(meta.known_type(), Some(ChannelMetaType::Profile));
    let other = ChannelMeta { meta_type: 10, ..meta };
    assert_eq!(other.known_type(), None);
}

#[test]
fn every_meta_type_round_trips_through_its_code() {
    let all = [
        ChannelMetaType::Notice,
        ChannelMetaType::Group,
        ChannelMetaType::Title,
        ChannelMetaType::Profile,
        ChannelMetaType::Tv,
        ChannelMetaType::Privilege,
        ChannelMetaType::TvLive,
        ChannelMetaType::PlusBackground,
        ChannelMetaType::LiveTalkInfo,
        ChannelMetaType::LiveTalkCount,
        ChannelMetaType::OpenChatChat,
        ChannelMetaType::Bot,
    ];
    for t in all {
        assert_eq!(ChannelMetaType::from_code(t.code()), Some(t));
    }
}
