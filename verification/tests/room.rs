use omeet::room::document::{DocumentApp, DocumentAppChannel, DocumentError, DocumentId, DocumentMutation};
use omeet::room::node_id::random_node_id;
use omeet::room::runtime::{
    AppRuntime, AppRuntimeChannel, AppRuntimeError, AppRuntimeMutation, CollaborateRoom, RoomChannel,
    RoomError, RoomMutation,
};
use omeet::room::types::{MemberId, MemberInfo, MemberName, MemberRole, RoomSpace};

fn member(id: &str, role: MemberRole, space: RoomSpace) -> MemberInfo {
    MemberInfo::new(MemberId::new(id), MemberName::new("Ada"), role, space)
}

#[test]
fn room_space_texts_round_trip() {
    assert_eq!(RoomSpace::Public.to_string(), "Public");
    assert_eq!(RoomSpace::Private("team".to_owned()).to_string(), "Private:team");
    assert_eq!("Public".parse::<RoomSpace>(), Ok(RoomSpace::Public));
    assert_eq!("Private:team".parse::<RoomSpace>(), Ok(RoomSpace::Private("team".to_owned())));
    assert_eq!("Private:".parse::<RoomSpace>(), Ok(RoomSpace::Private(String::new())));
    assert_eq!("private:team".parse::<RoomSpace>(), Err(()));
    assert_eq!("Pub".parse::<RoomSpace>(), Err(()));
}

#[test]
fn member_role_texts_round_trip() {
    for role in [MemberRole::Admin, MemberRole::Member, MemberRole::Viewer] {
        assert_eq!(role.to_string().parse::<MemberRole>(), Ok(role));
    }
    assert_eq!("admin".parse::<MemberRole>(), Err(()));
}

#[test]
fn member_info_reads_back_what_it_was_made_with() {
    let info = member("m1", MemberRole::Admin, RoomSpace::Private("ops".to_owned()));
    assert_eq!(info.get_id(), MemberId::new("m1"));
    assert_eq!(info.get_name(), MemberName::new("Ada"));
    assert_eq!(info.get_role(), MemberRole::Admin);
    assert_eq!(info.get_space(), RoomSpace::Private("ops".to_owned()));
    assert_eq!(info.role, "Admin");
    assert_eq!(info.space, "Private:ops");
}

#[test]
fn member_info_falls_back_for_unreadable_texts() {
    let mut info = member("m2", MemberRole::Member, RoomSpace::Public);
    info.role = "Owner".to_owned();
    info.space = "Elsewhere".to_owned();
    assert_eq!(info.get_role(), MemberRole::Viewer);
    assert_eq!(info.get_space(), RoomSpace::Public);
    assert_eq!(MemberId::new("m2").as_str(), "m2");
}

#[test]
fn document_app_creates_edits_and_deletes() {
    let mut app = DocumentApp::new();
    let id = DocumentId::new("doc1");
    assert_eq!(app.mutation(DocumentMutation::Create(id.clone())), Ok(()));
    let fresh = app.document(&id).expect("created document exists");
    assert_eq!(fresh.title, "");
    assert_eq!(fresh.content, "");

    assert_eq!(app.mutation(DocumentMutation::SetTitle(id.clone(), "Plan".to_owned())), Ok(()));
    assert_eq!(app.mutation(DocumentMutation::SetContent(id.clone(), "Steps".to_owned())), Ok(()));
    let doc = app.document(&id).expect("document exists");
    assert_eq!(doc.title, "Plan");
    assert_eq!(doc.content, "Steps");

    assert_eq!(app.mutation(DocumentMutation::Delete(id.clone())), Ok(()));
    assert!(app.document(&id).is_none());
}

#[test]
fn document_app_rejects_edits_of_missing_documents() {
    let mut app = DocumentApp::new();
    let missing = DocumentId::new("nothing");
    assert_eq!(
        app.mutation(DocumentMutation::SetTitle(missing.clone(), "x".to_owned())),
        Err(DocumentError::DocumentNotFound)
    );
    assert_eq!(
        app.mutation(DocumentMutation::SetContent(missing.clone(), "y".to_owned())),
        Err(DocumentError::DocumentNotFound)
    );
    assert!(app.document(&missing).is_none());
    assert_eq!(DocumentError::DocumentNotFound.to_string(), "Document not found");
}

#[test]
fn room_adds_replaces_and_removes_members() {
    let mut room = CollaborateRoom::new();
    let first = member("m1", MemberRole::Member, RoomSpace::Public);
    assert_eq!(room.mutation(RoomMutation::AddMember(first)), Ok(()));
    assert_eq!(room.member(&MemberId::new("m1")).unwrap().get_role(), MemberRole::Member);

    let promoted = member("m1", MemberRole::Admin, RoomSpace::Public);
    assert_eq!(room.mutation(RoomMutation::AddMember(promoted)), Ok(()));
    assert_eq!(room.member(&MemberId::new("m1")).unwrap().get_role(), MemberRole::Admin);

    assert_eq!(room.mutation(RoomMutation::RemoveMember(MemberId::new("m1"))), Ok(()));
    assert!(room.member(&MemberId::new("m1")).is_none());
}

#[test]
fn room_routes_app_mutations_and_errors() {
    let mut room = CollaborateRoom::new();
    let id = DocumentId::new("notes");
    let error = room
        .mutation(RoomMutation::AppMutation(AppRuntimeMutation::Document(DocumentMutation::SetTitle(
            id.clone(),
            "t".to_owned(),
        ))))
        .expect_err("missing document");
    assert_eq!(error, RoomError::AppRuntime(AppRuntimeError::Document(DocumentError::DocumentNotFound)));
    assert_eq!(error.to_string(), "App runtime error: document error: Document not found");

    assert_eq!(
        room.mutation(RoomMutation::AppMutation(AppRuntimeMutation::Document(DocumentMutation::Create(
            id.clone()
        )))),
        Ok(())
    );
    assert!(room.app_runtime().document_app().document(&id).is_some());
}

#[test]
fn every_member_may_subscribe_to_every_channel() {
    let room = CollaborateRoom::new();
    let viewer = member("v", MemberRole::Viewer, RoomSpace::Public);
    assert!(room.subscribe(&viewer, RoomChannel::Room));
    assert!(room.subscribe(&viewer, RoomChannel::App(AppRuntimeChannel::Document(DocumentAppChannel::Public))));
    assert!(AppRuntime::new().subscribe(&viewer, AppRuntimeChannel::Document(DocumentAppChannel::Public)));
}

#[test]
fn random_node_ids_are_sixteen_alphanumerics() {
    let first = random_node_id();
    let second = random_node_id();
    assert_eq!(first.chars().count(), 16);
    assert!(first.chars().all(|c| c.is_ascii_alphanumeric()));
    assert_eq!(second.len(), 16);
}
