use gcsf::drive_facade::{window_of, DriveFacade};
use gcsf::dummy_file::DummyFile;
use gcsf::error::DriveError;
use gcsf::request::{
    ChangeList, ChangesRequest, ContentRequest, File, FileList, FlushReply, FlushStep, GetRequest,
    Step, StorageQuota,
};

fn content(mut file: DummyFile) -> Vec<u8> {
    let mut buf: Vec<u8> = Vec::new();
    file.read_to_end(&mut buf).unwrap();
    buf
}

fn file(id: Option<&str>, parents: Option<Vec<&str>>) -> File {
    File {
        id: id.map(|s| s.to_string()),
        parents: parents.map(|list| list.iter().map(|s| s.to_string()).collect()),
    }
}

fn hit(facade: &mut DriveFacade, id: &str, offset: usize, size: usize) -> Option<Vec<u8>> {
    match facade.read(id, None, offset, size) {
        Step::Done(bytes) => Some(bytes.to_vec()),
        Step::Ask(_) => None,
    }
}

fn is_plain_get(request: &GetRequest, id: &str) -> bool {
    request.file_id == id
        && request.fields.is_none()
        && request.alt.is_none()
        && request.supports_team_drives.is_none()
        && request.full_scope
}

fn is_media_get(request: &GetRequest, id: &str) -> bool {
    request.file_id == id
        && request.fields.is_none()
        && request.alt == Some("media".to_string())
        && request.supports_team_drives == Some(false)
        && request.full_scope
}

/// Runs a flush against a drive that answers with the given content, and gives what is uploaded.
fn flushed(
    facade: &mut DriveFacade,
    id: &str,
    before: Result<Vec<u8>, String>,
) -> (Vec<u8>, String) {
    let id = id.to_string();
    assert!(facade.pending_writes_fit(&id));
    match facade.flush(&id) {
        FlushStep::Contains(request) => assert!(is_plain_get(&request, &id)),
        _ => panic!("nothing waits"),
    }
    match facade.flush_reply(&id, FlushReply::Contains(Ok(file(Some(&id), None)))) {
        FlushStep::Content(ContentRequest::Media(request)) => assert!(is_media_get(&request, &id)),
        _ => panic!("no content asked for"),
    }
    let upload = match facade.flush_reply(&id, FlushReply::Content(before)) {
        FlushStep::Upload(upload) => upload,
        _ => panic!("no upload"),
    };
    assert_eq!(upload.file_id, id);
    assert_eq!(upload.mime_type, upload.content_type);
    assert!(upload.full_scope);
    match facade.flush_reply(&id, FlushReply::Upload(Ok(()))) {
        FlushStep::Done(Ok(())) => {}
        _ => panic!("not done"),
    }
    (content(upload.content), upload.mime_type)
}

#[test]
fn parts_of_a_content() {
    let data: Vec<u8> = vec![1, 2, 3, 4];
    assert_eq!(window_of(&data, 1, 2), vec![2, 3]);
    assert_eq!(window_of(&data, 0, 4), vec![1, 2, 3, 4]);
    assert_eq!(window_of(&data, 3, 10), vec![4]);
    assert_eq!(window_of(&data, 4, 1), Vec::<u8>::new());
    assert_eq!(window_of(&data, 9, 1), Vec::<u8>::new());
    assert_eq!(window_of(&data, 2, 0), Vec::<u8>::new());
    let mut both = window_of(&data, 0, 1);
    both.extend(window_of(&data, 1, 9));
    assert_eq!(both, data);
}

#[test]
fn a_content_is_asked_for_once() {
    let mut facade = DriveFacade::new();
    match facade.read("f", None, 1, 2) {
        Step::Ask(ContentRequest::Media(request)) => assert!(is_media_get(&request, "f")),
        _ => panic!("nothing is remembered yet"),
    }
    let bytes = facade.read_reply("f", 1, 2, Ok(vec![5, 6, 7, 8])).unwrap().to_vec();
    assert_eq!(bytes, vec![6, 7]);
    assert_eq!(facade.buff(), &[6, 7]);
    assert_eq!(hit(&mut facade, "f", 0, 3), Some(vec![5, 6, 7]));
    assert_eq!(facade.buff(), &[5, 6, 7]);
    assert_eq!(hit(&mut facade, "f", 3, 100), Some(vec![8]));
    assert_eq!(hit(&mut facade, "f", 4, 1), Some(vec![]));
    assert_eq!(hit(&mut facade, "g", 0, 1), None);
}

#[test]
fn a_content_that_cannot_be_had_gives_nothing() {
    let mut facade = DriveFacade::new();
    assert!(facade.read_reply("f", 0, 1, Ok(vec![9])).is_some());
    assert!(facade.read_reply("g", 0, 1, Err("no".to_string())).is_none());
    assert_eq!(hit(&mut facade, "g", 0, 1), None);
    assert_eq!(facade.buff(), &[9]);
}

#[test]
fn a_part_without_an_end_is_no_matter_while_there_is_no_content() {
    let mut facade = DriveFacade::new();
    match facade.read("f", None, 1, usize::MAX) {
        Step::Ask(ContentRequest::Media(request)) => assert!(is_media_get(&request, "f")),
        _ => panic!("nothing is remembered yet"),
    }
    assert!(facade.read_reply("f", 1, usize::MAX, Err("no".to_string())).is_none());
    assert_eq!(facade.read_reply("f", 1, usize::MAX - 1, Ok(vec![5, 6])).unwrap(), &[6]);
    assert_eq!(hit(&mut facade, "f", usize::MAX, 0), Some(vec![]));
}

#[test]
fn a_content_fetched_again_replaces_the_one_before() {
    let mut facade = DriveFacade::new();
    facade.read_reply("f", 0, 1, Ok(vec![1]));
    facade.read_reply("g", 0, 1, Ok(vec![2]));
    facade.read_reply("f", 0, 1, Ok(vec![3]));
    assert_eq!(hit(&mut facade, "f", 0, 9), Some(vec![3]));
    assert_eq!(hit(&mut facade, "g", 0, 9), Some(vec![2]));
}

#[test]
fn the_content_used_longest_ago_makes_room() {
    let mut facade = DriveFacade::new();
    for i in 0..100u8 {
        facade.read_reply(&i.to_string(), 0, 1, Ok(vec![i]));
    }
    assert_eq!(hit(&mut facade, "0", 0, 1), Some(vec![0]));
    facade.read_reply("100", 0, 1, Ok(vec![100]));
    assert_eq!(hit(&mut facade, "1", 0, 1), None);
    assert_eq!(hit(&mut facade, "0", 0, 1), Some(vec![0]));
    assert_eq!(hit(&mut facade, "2", 0, 1), Some(vec![2]));
    assert_eq!(hit(&mut facade, "100", 0, 1), Some(vec![100]));
}

#[test]
fn documents_are_exported() {
    let mut facade = DriveFacade::new();
    let mime = Some("application/vnd.google-apps.spreadsheet".to_string());
    match facade.read("f", mime, 0, 1) {
        Step::Ask(ContentRequest::Export(request)) => {
            assert_eq!(request.file_id, "f");
            assert_eq!(request.mime_type, "application/vnd.oasis.opendocument.spreadsheet");
            assert!(request.full_scope);
        }
        _ => panic!("not exported"),
    }
}

#[test]
fn a_flush_without_writes_has_nothing_to_do() {
    let mut facade = DriveFacade::new();
    facade.read_reply("f", 0, 1, Ok(vec![1]));
    assert!(matches!(facade.flush(&"f".to_string()), FlushStep::Done(Ok(()))));
    assert_eq!(hit(&mut facade, "f", 0, 1), Some(vec![1]));
}

#[test]
fn a_flush_uploads_the_writes_in_order() {
    let mut facade = DriveFacade::new();
    facade.read_reply("f", 0, 1, Ok(vec![1, 2, 3, 4]));
    facade.write("f".to_string(), 2, &[30, 40, 50]);
    facade.write("g".to_string(), 0, b"other");
    facade.write("f".to_string(), 4, &[60]);
    assert_eq!(hit(&mut facade, "f", 0, 9), Some(vec![1, 2, 3, 4]));
    let (data, mime) = flushed(&mut facade, "f", Ok(vec![1, 2, 3, 4]));
    assert_eq!(data, vec![1, 2, 30, 40, 60]);
    assert_eq!(mime, "application/octet-stream");
    // The content is to be asked for anew, and nothing waits for the file any more.
    assert_eq!(hit(&mut facade, "f", 0, 9), None);
    assert!(matches!(facade.flush(&"f".to_string()), FlushStep::Done(Ok(()))));
    // What is read then is what was written.
    let read = facade.read_reply("f", 4, 1, Ok(data)).unwrap().to_vec();
    assert_eq!(read, vec![60]);
    // The other file still has its write.
    assert_eq!(flushed(&mut facade, "g", Ok(vec![])).0, b"other".to_vec());
}

#[test]
fn a_flush_guesses_the_type_by_the_content() {
    let mut facade = DriveFacade::new();
    facade.write("f".to_string(), 0, b"%PDF-1.5 and so on");
    assert_eq!(flushed(&mut facade, "f", Ok(vec![])).1, "application/pdf");
    facade.write("f".to_string(), 0, b"GIF89a");
    assert_eq!(flushed(&mut facade, "f", Ok(vec![])).1, "image/gif");
    let given = DriveFacade::upload_request("f".to_string(), &[1], Some("text/plain".to_string()));
    assert_eq!(given.mime_type, "text/plain");
    let unknown = DriveFacade::upload_request("f".to_string(), &[1], None);
    assert_eq!(unknown.content_type, "application/octet-stream");
}

#[test]
fn a_flush_takes_a_content_that_cannot_be_had_to_be_empty() {
    let mut facade = DriveFacade::new();
    facade.write("f".to_string(), 2, &[7]);
    assert_eq!(flushed(&mut facade, "f", Err("no".to_string())).0, vec![0, 0, 7]);
}

#[test]
fn a_flush_of_a_file_that_is_not_there_fails_and_keeps_the_writes() {
    let mut facade = DriveFacade::new();
    let id = "f".to_string();
    facade.write(id.clone(), 0, &[7]);
    for answer in vec![file(Some("g"), None), file(None, None)] {
        assert!(matches!(facade.flush(&id), FlushStep::Contains(_)));
        assert!(matches!(
            facade.flush_reply(&id, FlushReply::Contains(Ok(answer))),
            FlushStep::Done(Err(DriveError::FileNotOnDrive))
        ));
    }
    assert_eq!(flushed(&mut facade, "f", Ok(vec![])).0, vec![7]);
}

#[test]
fn a_flush_goes_on_if_the_drive_does_not_say_whether_the_file_is_there() {
    let mut facade = DriveFacade::new();
    let id = "f".to_string();
    facade.write(id.clone(), 0, &[7]);
    assert!(matches!(facade.flush(&id), FlushStep::Contains(_)));
    assert!(matches!(
        facade.flush_reply(&id, FlushReply::Contains(Err("no".to_string()))),
        FlushStep::Content(_)
    ));
}

#[test]
fn a_failed_upload_is_reported() {
    let mut facade = DriveFacade::new();
    let id = "f".to_string();
    match facade.flush_reply(&id, FlushReply::Upload(Err("full".to_string()))) {
        FlushStep::Done(Err(DriveError::Service(text))) => assert_eq!(text, "full"),
        _ => panic!("no error"),
    }
}

#[test]
fn a_file_is_there_if_it_is_the_one_asked_for() {
    let id = "f".to_string();
    assert!(is_plain_get(&DriveFacade::contains(&id), "f"));
    assert!(DriveFacade::contains_reply(&id, Ok(file(Some("f"), None))).unwrap());
    assert!(!DriveFacade::contains_reply(&id, Ok(file(Some("g"), None))).unwrap());
    assert!(!DriveFacade::contains_reply(&id, Ok(file(None, None))).unwrap());
    let failed = DriveFacade::contains_reply(&id, Err("why".to_string()));
    assert_eq!(failed.unwrap_err().message(), "why");
}

#[test]
fn the_root_is_asked_for_once() {
    let mut facade = DriveFacade::new();
    match facade.root_id() {
        Step::Ask(request) => {
            assert_eq!(request.fields, "files(parents)");
            assert_eq!(request.spaces, "drive");
            assert_eq!(request.corpora, "user");
            assert_eq!(request.page_size, 1);
            assert_eq!(request.page_token, None);
            assert_eq!(request.query, "'root' in parents");
            assert!(request.full_scope);
        }
        Step::Done(_) => panic!("not known yet"),
    }
    let found = vec![file(None, Some(vec!["r", "s"])), file(None, Some(vec!["t"]))];
    assert_eq!(facade.root_id_reply(Ok(Some(found))).unwrap(), "r");
    match facade.root_id() {
        Step::Done(id) => assert_eq!(id, "r"),
        Step::Ask(_) => panic!("known"),
    }
}

#[test]
fn the_root_may_not_be_known() {
    let mut facade = DriveFacade::new();
    let mut ask = |reply| facade.root_id_reply(reply).map(|s| s.clone());
    assert!(matches!(ask(Err("e".to_string())), Err(DriveError::Service(_))));
    assert!(matches!(ask(Ok(None)), Err(DriveError::NoFilesReceived)));
    assert!(matches!(ask(Ok(Some(vec![]))), Err(DriveError::NoFilesOnDrive)));
    assert!(matches!(ask(Ok(Some(vec![file(None, None)]))), Err(DriveError::NoParents)));
    assert!(matches!(
        ask(Ok(Some(vec![file(None, Some(vec![]))]))),
        Err(DriveError::NoFilesOnDrive)
    ));
    assert!(matches!(facade.root_id(), Step::Ask(_)));
}

fn changes(list: Option<Vec<u8>>, next: Option<&str>, start: Option<&str>) -> ChangeList<u8> {
    ChangeList {
        changes: list,
        next_page_token: next.map(|s| s.to_string()),
        new_start_page_token: start.map(|s| s.to_string()),
    }
}

fn page_asked_for(facade: &DriveFacade) -> Option<String> {
    match facade.get_all_changes() {
        ChangesRequest::StartPageToken(request) => {
            assert!(request.full_scope);
            None
        }
        ChangesRequest::List(request) => {
            assert_eq!(
                request.fields,
                "kind,newStartPageToken,changes(kind,type,time,removed,fileId,\
                 file(name,id,size,mimeType,owners,parents,trashed))"
            );
            assert_eq!(request.spaces, "drive");
            assert!(request.restrict_to_my_drive && request.full_scope);
            assert!(!request.include_removed && !request.supports_team_drives);
            assert!(!request.include_team_drive_items);
            assert_eq!(request.page_size, 1000);
            Some(request.page_token)
        }
    }
}

#[test]
fn changes_come_page_after_page() {
    let mut facade = DriveFacade::new();
    assert_eq!(page_asked_for(&facade), None);
    assert!(matches!(facade.changes_token(), Step::Ask(_)));
    assert_eq!(facade.changes_token_reply(Ok(Some("s".to_string()))).unwrap(), "s");
    assert!(matches!(facade.changes_token(), Step::Done(_)));
    let mut all: Vec<u8> = Vec::new();
    assert_eq!(page_asked_for(&facade), Some("s".to_string()));
    let page = changes(Some(vec![1, 2]), Some("p"), None);
    assert!(!facade.get_all_changes_reply(&mut all, Ok(page)).unwrap());
    assert_eq!(page_asked_for(&facade), Some("p".to_string()));
    let page = changes(None, Some("q"), Some("ignored"));
    assert!(!facade.get_all_changes_reply(&mut all, Ok(page)).unwrap());
    assert_eq!(page_asked_for(&facade), Some("q".to_string()));
    let failed = facade.get_all_changes_reply(&mut all, Err("e".to_string()));
    assert_eq!(failed.unwrap_err().message(), "e");
    assert_eq!(page_asked_for(&facade), Some("q".to_string()));
    let page = changes(Some(vec![3]), None, Some("n"));
    assert!(facade.get_all_changes_reply(&mut all, Ok(page)).unwrap());
    assert_eq!(all, vec![1, 2, 3]);
    assert_eq!(page_asked_for(&facade), Some("n".to_string()));
    let page = changes(Some(vec![]), None, None);
    assert!(facade.get_all_changes_reply(&mut all, Ok(page)).unwrap());
    assert_eq!(page_asked_for(&facade), None);
}

#[test]
fn a_start_that_is_not_named_is_replaced_by_a_text() {
    let mut facade = DriveFacade::new();
    assert!(facade.changes_token_reply(Err("e".to_string())).is_err());
    assert_eq!(page_asked_for(&facade), None);
    facade.changes_token_reply(Ok(None)).unwrap();
    assert_eq!(
        page_asked_for(&facade),
        Some("Received OK response from drive but there is no startPageToken included.".to_string())
    );
    let failed = DriveFacade::get_start_page_token(Err("e".to_string()));
    assert_eq!(failed.unwrap_err().message(), "e");
}

fn files(list: Option<Vec<u8>>, next: Option<&str>) -> FileList<u8> {
    FileList { files: list, next_page_token: next.map(|s| s.to_string()) }
}

#[test]
fn files_come_page_after_page() {
    let facade = DriveFacade::new();
    let parents = Some(vec!["a".to_string(), "b".to_string()]);
    let mut scan = facade.get_all_files::<u8>(parents, Some(false));
    let request = scan.request();
    assert_eq!(
        request.fields,
        "nextPageToken,files(name,id,size,mimeType,owners,parents,trashed)"
    );
    assert_eq!((request.spaces, request.corpora), ("drive".to_string(), "user".to_string()));
    assert_eq!((request.page_size, request.page_token), (1000, None));
    assert!(request.full_scope);
    let query = "('a' in parents or 'b' in parents) and trashed = false";
    assert_eq!(request.query, query);
    assert!(!scan.reply(Ok(files(Some(vec![1, 2]), Some("p")))).unwrap());
    assert_eq!(scan.request().page_token, Some("p".to_string()));
    assert_eq!(scan.request().query, query);
    assert!(scan.reply(Err("e".to_string())).is_err());
    assert_eq!(scan.request().page_token, Some("p".to_string()));
    assert!(!scan.reply(Ok(files(None, Some("q")))).unwrap());
    assert!(scan.reply(Ok(files(Some(vec![3]), None))).unwrap());
    assert_eq!(scan.into_files(), vec![1, 2, 3]);
}

#[test]
fn files_are_made_empty() {
    let request = DriveFacade::new().create(&"any".to_string());
    assert_eq!(request.file, "any");
    assert_eq!(content(request.content), Vec::<u8>::new());
    assert_eq!(request.content_type, "application/octet-stream");
    assert!(request.use_content_as_indexable_text && request.ignore_default_visibility);
    assert!(!request.supports_team_drives && !request.full_scope);
    assert_eq!(DriveFacade::create_reply(Ok(file(Some("f"), None))).unwrap(), "f");
    assert_eq!(
        DriveFacade::create_reply(Ok(file(None, None))).unwrap(),
        "Received file from drive but it has no drive id."
    );
    assert_eq!(DriveFacade::create_reply(Err("e".to_string())).unwrap_err().message(), "e");
}

#[test]
fn files_are_deleted() {
    let request = DriveFacade::new().delete_permanently(&"f".to_string());
    assert_eq!(request.file_id, "f");
    assert!(!request.supports_team_drives && request.full_scope);
    let reply = |status: u16| DriveFacade::delete_permanently_reply(Ok(status)).unwrap();
    assert!(reply(200) && reply(204) && reply(299));
    assert!(!reply(199) && !reply(300) && !reply(404));
    for status in 0..1000u16 {
        assert_eq!(reply(status), hyper::status::StatusCode::from_u16(status).is_success());
    }
    let failed = DriveFacade::delete_permanently_reply(Err("e".to_string()));
    assert_eq!(failed.unwrap_err().message(), "e");
}

#[test]
fn files_are_moved() {
    let (id, parent) = ("f".to_string(), "p".to_string());
    let request = DriveFacade::new().move_to(&id);
    assert_eq!(request.file_id, "f");
    assert_eq!(request.fields, Some("id,name,parents,mimeType".to_string()));
    assert_eq!((request.alt, request.supports_team_drives), (None, None));
    assert!(request.full_scope);
    let step = |answer| DriveFacade::move_to_metadata_reply(&id, &parent, "new", answer);
    let update = step(Ok(file(Some("f"), Some(vec!["a", "b"])))).unwrap();
    assert_eq!(update.file_id, "f");
    assert_eq!(update.name, Some("new".to_string()));
    assert_eq!(update.trashed, None);
    assert_eq!(update.remove_parents, Some("a,b".to_string()));
    assert_eq!(update.add_parents, Some("p".to_string()));
    assert!(update.full_scope);
    assert_eq!(step(Ok(file(None, None))).unwrap().remove_parents, Some("root".to_string()));
    assert_eq!(step(Ok(file(None, Some(vec![])))).unwrap().remove_parents, Some("".to_string()));
    assert_eq!(step(Err("e".to_string())).unwrap_err().message(), "e");
    assert_eq!(DriveFacade::move_to_update_reply(Ok(7)).unwrap(), 7);
    let failed = DriveFacade::move_to_update_reply::<u8>(Err("e".to_string()));
    assert_eq!(failed.unwrap_err().message(), "DriveFacade::move_to() e");
}

#[test]
fn files_are_put_into_the_trash() {
    let update = DriveFacade::new().move_to_trash("f".to_string());
    assert_eq!(update.file_id, "f");
    assert_eq!(update.trashed, Some(true));
    assert_eq!((update.name, update.remove_parents, update.add_parents), (None, None, None));
    assert!(update.full_scope);
    assert!(DriveFacade::move_to_trash_reply(Ok(1)).is_ok());
    let failed = DriveFacade::move_to_trash_reply::<u8>(Err("e".to_string()));
    assert_eq!(failed.unwrap_err().message(), "DriveFacade::move_to() e");
}

#[test]
fn storage_is_told_in_numbers() {
    let request = DriveFacade::new().size_and_capacity();
    assert_eq!(request.fields, "storageQuota");
    assert!(request.full_scope);
    let quota = |usage: Option<&str>, limit: Option<&str>| StorageQuota {
        usage: usage.map(|s| s.to_string()),
        limit: limit.map(|s| s.to_string()),
    };
    let full = quota(Some("12"), Some("345"));
    assert!(full.is_readable());
    assert_eq!(DriveFacade::size_and_capacity_reply(Ok(Some(full))).unwrap(), (12, Some(345)));
    let open = quota(Some("0"), None);
    assert!(open.is_readable());
    assert_eq!(DriveFacade::size_and_capacity_reply(Ok(Some(open))).unwrap(), (0, None));
    assert!(!quota(None, Some("1")).is_readable());
    assert!(!quota(Some("x"), None).is_readable());
    assert!(!quota(Some("1"), Some("-1")).is_readable());
    assert!(matches!(
        DriveFacade::size_and_capacity_reply(Ok(None)),
        Err(DriveError::NoStorageQuota)
    ));
    let failed = DriveFacade::size_and_capacity_reply(Err("e".to_string()));
    assert_eq!(failed.unwrap_err().message(), "e");
}
