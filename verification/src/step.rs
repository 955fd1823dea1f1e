//! What the command engine decides on receiving an invocation: a response,
//! or a question to the platform that has to be answered first.

use crate::team::{GroupView, PermissionGroup};
use vstd::prelude::*;

verus! {

/// A change to a permission group that the platform is asked to make.
#[derive(Debug)]
pub enum GroupChange {
    /// Give the group this display name.
    Name(String),
    /// Give the group this packed RGB colour.
    Colour(u32),
}

/// The mathematical value of a [`GroupChange`].
pub enum GroupChangeView {
    Name(Seq<char>),
    Colour(u32),
}

impl View for GroupChange {
    type V = GroupChangeView;

    open spec fn view(&self) -> GroupChangeView {
        match self {
            GroupChange::Name(name) => GroupChangeView::Name(name@),
            GroupChange::Colour(colour) => GroupChangeView::Colour(*colour),
        }
    }
}

/// A request to the platform to change the permission group `group` of
/// the community `community`.
#[derive(Debug)]
pub struct GroupEdit {
    pub group: u64,
    pub community: u64,
    pub change: GroupChange,
}

/// The mathematical value of a [`GroupEdit`].
pub struct GroupEditView {
    pub group: u64,
    pub community: u64,
    pub change: GroupChangeView,
}

impl View for GroupEdit {
    type V = GroupEditView;

    open spec fn view(&self) -> GroupEditView {
        GroupEditView { group: self.group, community: self.community, change: self.change@ }
    }
}

/// What a privileged command does once its actor is authorized.
#[derive(Debug)]
pub enum Privileged {
    /// Bind a new team to `channel` with the permission group `group`.
    Create { channel: u64, group: PermissionGroup },
    /// A creation whose arguments are not a channel and a permission group.
    CreateInvalid,
    /// Add `amount` to the score of the team bound to the channel `origin`.
    Adjust { origin: Option<u64>, amount: Option<i64> },
}

/// The mathematical value of a [`Privileged`].
pub enum PrivilegedView {
    Create { channel: u64, group: GroupView },
    CreateInvalid,
    Adjust { origin: Option<u64>, amount: Option<i64> },
}

impl View for Privileged {
    type V = PrivilegedView;

    open spec fn view(&self) -> PrivilegedView {
        match self {
            Privileged::Create { channel, group } => PrivilegedView::Create {
                channel: *channel,
                group: group@,
            },
            Privileged::CreateInvalid => PrivilegedView::CreateInvalid,
            Privileged::Adjust { origin, amount } => PrivilegedView::Adjust {
                origin: *origin,
                amount: *amount,
            },
        }
    }
}

/// A privileged command that waits for the platform to say whether
/// `actor` holds the permission group `group` within `community`.
#[derive(Debug)]
pub struct Pending {
    pub actor: u64,
    pub community: u64,
    pub group: u64,
    pub action: Privileged,
}

/// The mathematical value of a [`Pending`].
pub struct PendingView {
    pub actor: u64,
    pub community: u64,
    pub group: u64,
    pub action: PrivilegedView,
}

impl View for Pending {
    type V = PendingView;

    open spec fn view(&self) -> PendingView {
        PendingView {
            actor: self.actor,
            community: self.community,
            group: self.group,
            action: self.action@,
        }
    }
}

/// What the engine decides on receiving an invocation.
#[derive(Debug)]
pub enum Step {
    /// The response is ready.
    Reply(String),
    /// The platform has to say whether the actor holds the host group.
    CheckMembership(Pending),
    /// The platform has to change a permission group.
    EditGroup(GroupEdit),
}

/// The mathematical value of a [`Step`].
pub enum StepView {
    Reply(Seq<char>),
    CheckMembership(PendingView),
    EditGroup(GroupEditView),
}

impl View for Step {
    type V = StepView;

    open spec fn view(&self) -> StepView {
        match self {
            Step::Reply(text) => StepView::Reply(text@),
            Step::CheckMembership(pending) => StepView::CheckMembership(pending@),
            Step::EditGroup(edit) => StepView::EditGroup(edit@),
        }
    }
}

} // verus!
