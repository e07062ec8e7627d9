//! The room and the apps that run in it: where mutations and subscriptions go.

use vstd::prelude::*;
use crate::room::document::{
    documents_after, document_mutation_allowed, DocumentApp, DocumentAppChannel, DocumentError,
    DocumentMutation, DocumentState,
};
use crate::room::keyed_log::KeyedLog;
use crate::room::types::{MemberId, MemberInfo};

verus! {

/// The channels of the app runtime.
#[derive(Debug, Clone, Copy, PartialEq, Eq, Structural)]
pub enum AppRuntimeChannel {
    Document(DocumentAppChannel),
}

/// A change requested of one of the room's apps.
#[derive(Debug)]
pub enum AppRuntimeMutation {
    Document(DocumentMutation),
}

/// Why an app mutation failed.
#[derive(Debug, Clone, Copy, PartialEq, Eq, Structural)]
pub enum AppRuntimeError {
    Document(DocumentError),
}

impl AppRuntimeError {
    pub open spec fn message(self) -> Seq<char> {
        match self {
            AppRuntimeError::Document(error) => "document error: "@ + error.message(),
        }
    }

    pub fn to_string(&self) -> (r: String)
        ensures
            r@ == self.message(),
    {
        match self {
            AppRuntimeError::Document(error) => "document error: ".to_owned().concat(
                error.to_string().as_str(),
            ),
        }
    }
}

/// Context handed to the apps.
#[derive(Debug, Clone, Copy, PartialEq, Eq, Structural)]
pub struct AppCtx {}

/// The apps that run inside a room.
#[derive(Debug)]
pub struct AppRuntime {
    ctx: AppCtx,
    document: DocumentApp,
}

impl View for AppRuntime {
    /// The document app's documents.
    type V = Map<Seq<char>, DocumentState>;

    closed spec fn view(&self) -> Map<Seq<char>, DocumentState> {
        self.document@
    }
}

impl AppRuntime {
    pub fn new() -> (r: Self)
        ensures
            r@ == Map::<Seq<char>, DocumentState>::empty(),
    {
        AppRuntime { ctx: AppCtx {}, document: DocumentApp::new() }
    }

    /// The document app.
    pub fn document_app(&self) -> (r: &DocumentApp)
        ensures
            r@ == self@,
    {
        &self.document
    }

    /// Whether the member may follow the channel: the owning app decides.
    pub fn subscribe(&self, member: &MemberInfo, channel: AppRuntimeChannel) -> (r: bool)
        ensures
            r,
    {
        match channel {
            AppRuntimeChannel::Document(channel) => self.document.subscribe(member, channel),
        }
    }

    /// Hands the mutation to the app it is for.
    pub fn mutation(&mut self, mutation: AppRuntimeMutation) -> (r: Result<(), AppRuntimeError>)
        ensures
            match mutation {
                AppRuntimeMutation::Document(m) => {
                    &&& document_mutation_allowed(old(self)@, m) ==> r is Ok && documents_after(
                        old(self)@,
                        m,
                        final(self)@,
                    )
                    &&& !document_mutation_allowed(old(self)@, m) ==> r == Err::<(), AppRuntimeError>(
                        AppRuntimeError::Document(DocumentError::DocumentNotFound),
                    ) && final(self)@ == old(self)@
                },
            },
    {
        match mutation {
            AppRuntimeMutation::Document(doc_mutation) => {
                match self.document.mutation(doc_mutation) {
                    Ok(()) => Ok(()),
                    Err(error) => Err(AppRuntimeError::Document(error)),
                }
            },
        }
    }
}

/// A change requested of a room.
#[derive(Debug)]
pub enum RoomMutation {
    AddMember(MemberInfo),
    RemoveMember(MemberId),
    AppMutation(AppRuntimeMutation),
}

/// The channels of a room: the room's own, and those of its apps.
#[derive(Debug, Clone, Copy, PartialEq, Eq, Structural)]
pub enum RoomChannel {
    Room,
    App(AppRuntimeChannel),
}

/// Why a room mutation failed.
#[derive(Debug, Clone, Copy, PartialEq, Eq, Structural)]
pub enum RoomError {
    MemberNotFound,
    AppRuntime(AppRuntimeError),
}

impl RoomError {
    pub open spec fn message(self) -> Seq<char> {
        match self {
            RoomError::MemberNotFound => "Member not found"@,
            RoomError::AppRuntime(error) => "App runtime error: "@ + error.message(),
        }
    }

    pub fn to_string(&self) -> (r: String)
        ensures
            r@ == self.message(),
    {
        match self {
            RoomError::MemberNotFound => "Member not found".to_owned(),
            RoomError::AppRuntime(error) => "App runtime error: ".to_owned().concat(
                error.to_string().as_str(),
            ),
        }
    }
}

/// The state of a room: its members by id, and the documents of its apps.
pub struct RoomView {
    pub members: Map<Seq<char>, MemberInfo>,
    pub documents: Map<Seq<char>, DocumentState>,
}

/// A collaborative room: its members and the apps running in it.
#[derive(Debug)]
pub struct CollaborateRoom {
    members: KeyedLog<MemberInfo>,
    app_runtime: AppRuntime,
}

impl View for CollaborateRoom {
    type V = RoomView;

    closed spec fn view(&self) -> RoomView {
        RoomView { members: self.members@, documents: self.app_runtime@ }
    }
}

impl CollaborateRoom {
    pub fn new() -> (r: Self)
        ensures
            r@.members == Map::<Seq<char>, MemberInfo>::empty(),
            r@.documents == Map::<Seq<char>, DocumentState>::empty(),
    {
        CollaborateRoom { members: KeyedLog::new(), app_runtime: AppRuntime::new() }
    }

    /// The member with the given id, if any.
    pub fn member(&self, id: &MemberId) -> (r: Option<&MemberInfo>)
        ensures
            match r {
                Some(info) => self@.members.contains_key(id@) && *info == self@.members[id@],
                None => !self@.members.contains_key(id@),
            },
    {
        self.members.get(id.as_str())
    }

    /// The apps of the room.
    pub fn app_runtime(&self) -> (r: &AppRuntime)
        ensures
            r@ == self@.documents,
    {
        &self.app_runtime
    }

    /// Whether the member may follow the channel: everyone follows the room,
    /// and the app decides for its own channels.
    pub fn subscribe(&self, member: &MemberInfo, channel: RoomChannel) -> (r: bool)
        ensures
            r,
    {
        match channel {
            RoomChannel::Room => true,
            RoomChannel::App(channel) => self.app_runtime.subscribe(member, channel),
        }
    }

    /// Adds or replaces a member, removes one, or hands an app mutation on.
    pub fn mutation(&mut self, mutation: RoomMutation) -> (r: Result<(), RoomError>)
        ensures
            match mutation {
                RoomMutation::AddMember(info) => r is Ok && final(self)@.members
                    == old(self)@.members.insert(info.id@, info) && final(self)@.documents
                    == old(self)@.documents,
                RoomMutation::RemoveMember(id) => r is Ok && final(self)@.members
                    == old(self)@.members.remove(id@) && final(self)@.documents
                    == old(self)@.documents,
                RoomMutation::AppMutation(AppRuntimeMutation::Document(m)) => {
                    &&& final(self)@.members == old(self)@.members
                    &&& document_mutation_allowed(old(self)@.documents, m) ==> r is Ok
                        && documents_after(old(self)@.documents, m, final(self)@.documents)
                    &&& !document_mutation_allowed(old(self)@.documents, m) ==> r == Err::<
                        (),
                        RoomError,
                    >(RoomError::AppRuntime(AppRuntimeError::Document(DocumentError::DocumentNotFound)))
                        && final(self)@.documents == old(self)@.documents
                },
            },
    {
        match mutation {
            RoomMutation::AddMember(member_info) => {
                let key = member_info.id.to_string();
                self.members.insert(key.as_str(), member_info);
                Ok(())
            },
            RoomMutation::RemoveMember(member_id) => {
                self.members.remove(member_id.as_str());
                Ok(())
            },
            RoomMutation::AppMutation(app_mutation) => {
                match self.app_runtime.mutation(app_mutation) {
                    Ok(()) => Ok(()),
                    Err(error) => Err(RoomError::AppRuntime(error)),
                }
            },
        }
    }
}

} // verus!
