use vstd::prelude::*;

use crate::state::ChatGroupManager;
use crate::tables::texts;
use crate::types::{Actions, DisplayText, OutputUnit};

verus! {

/// A motion of the character.
#[derive(Clone, Debug)]
pub struct Motion {
    pub group: String,
    pub index: i32,
    pub loop_motion: bool,
}

/// The settings a conversation runs under.
#[derive(Clone, Debug)]
pub struct ConversationConfig {
    pub conf_uid: String,
    pub history_uid: Option<String>,
    pub client_uid: String,
    pub character_name: String,
}

/// What the orchestrator sends to a client.
#[derive(Clone, Debug)]
pub enum OutboundEvent {
    /// A turn began.
    TurnStart,
    /// A turn ended.
    TurnEnd,
    /// A whole text to show.
    FullText(String),
    /// One unit of output, with its audio if there is any.
    Audio {
        audio_path: Option<String>,
        display_text: DisplayText,
        actions: Actions,
        forwarded: bool,
    },
    /// A turn failed.
    Error(String),
    /// The client's group: its members, and whether the client owns it.
    GroupUpdate { members: Vec<String>, is_owner: bool },
}

/// The event that delivers `unit` to one client, with the audio made for it, if any.
pub fn unit_event(unit: OutputUnit, audio_path: Option<String>, forwarded: bool) -> (r:
    OutboundEvent)
    ensures
        match unit {
            OutputUnit::Sentence(s) => r == (OutboundEvent::Audio {
                audio_path: audio_path,
                display_text: s.display_text,
                actions: s.actions,
                forwarded: forwarded,
            }),
            OutputUnit::Audio(a) => r == (OutboundEvent::Audio {
                audio_path: Some(a.audio_path),
                display_text: a.display_text,
                actions: a.actions,
                forwarded: forwarded,
            }),
        },
{
    match unit {
        OutputUnit::Sentence(s) => OutboundEvent::Audio {
            audio_path,
            display_text: s.display_text,
            actions: s.actions,
            forwarded,
        },
        OutputUnit::Audio(a) => OutboundEvent::Audio {
            audio_path: Some(a.audio_path),
            display_text: a.display_text,
            actions: a.actions,
            forwarded,
        },
    }
}

/// The group update for `client_uid`: the members of its group, and whether it owns it.
pub fn group_update(groups: &ChatGroupManager, client_uid: &str) -> (r: OutboundEvent)
    ensures
        r matches OutboundEvent::GroupUpdate { members: m, is_owner: o } && texts(m@)
            == groups.members_of(client_uid@) && o == (groups.group_of().contains_key(client_uid@)
            && groups.owners().contains_key(groups.group_of()[client_uid@]) && groups.owners()[groups.group_of()[client_uid@]]
            == client_uid@),
{
    OutboundEvent::GroupUpdate {
        members: groups.get_group_members(client_uid),
        is_owner: groups.is_owner(client_uid),
    }
}

} // verus!
