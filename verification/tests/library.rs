use lyra_player::plugin::library::{
    handle, handle_error, handle_page, move_track, refresh, LibraryMessage, LibraryPage, PAGE_SIZE,
};
use lyra_player::plugin::state::{DeviceLibraryTrack, UiState};

fn track(id: u64) -> DeviceLibraryTrack {
    DeviceLibraryTrack {
        id,
        name: format!("T{id}"),
        artists: Vec::new(),
        album: String::new(),
        duration_ms: 0,
    }
}

fn ready_ui() -> UiState {
    UiState { selected_addr: "dev".into(), ..UiState::default() }
}

#[test]
fn refresh_needs_a_device_and_no_import() {
    let mut ui = UiState::default();
    assert!(refresh(&mut ui).is_none());
    assert_eq!(ui.status, "请先选择设备。");
    let mut ui = UiState { active: true, ..ready_ui() };
    assert!(refresh(&mut ui).is_none());
    assert_eq!(ui.status, "请等待当前导入完成后再读取手表音乐。");
}

#[test]
fn pages_are_read_in_order_until_the_total() {
    let mut ui = ready_ui();
    let first = refresh(&mut ui).unwrap();
    assert_eq!(first.request_id, "library-1");
    assert_eq!((first.offset, first.limit), (0, PAGE_SIZE));
    let next = handle_page(
        &mut ui,
        "dev",
        LibraryPage {
            request_id: "library-1".into(),
            revision: "r1".into(),
            offset: 0,
            total: 3,
            tracks: vec![track(1), track(2)],
        },
    )
    .unwrap();
    assert_eq!(next.offset, 2);
    assert_eq!(ui.status, "已读取 2/3 首手表音乐。");
    let done = handle_page(
        &mut ui,
        "dev",
        LibraryPage {
            request_id: "library-1".into(),
            revision: "r1".into(),
            offset: 2,
            total: 3,
            tracks: vec![track(3)],
        },
    );
    assert!(done.is_none());
    assert_eq!(ui.device_library.len(), 3);
    assert_eq!(ui.status, "已读取 3/3 首手表音乐。");
}

#[test]
fn stale_out_of_order_or_changed_pages_stop_reading() {
    let mut ui = ready_ui();
    refresh(&mut ui).unwrap();
    let stale = LibraryPage {
        request_id: "library-0".into(),
        revision: "r1".into(),
        offset: 0,
        total: 1,
        tracks: vec![track(1)],
    };
    assert!(handle_page(&mut ui, "dev", stale).is_none());
    assert_eq!(ui.status, "正在读取手表音乐列表…");
    let out_of_order = LibraryPage {
        request_id: "library-1".into(),
        revision: "r1".into(),
        offset: 4,
        total: 9,
        tracks: vec![track(1)],
    };
    assert!(handle_page(&mut ui, "dev", out_of_order).is_none());
    assert_eq!(ui.status, "手表音乐分页顺序无效，请重新刷新。");
    handle_page(
        &mut ui,
        "dev",
        LibraryPage {
            request_id: "library-1".into(),
            revision: "r1".into(),
            offset: 0,
            total: 9,
            tracks: vec![track(1)],
        },
    );
    let changed = LibraryPage {
        request_id: "library-1".into(),
        revision: "r2".into(),
        offset: 1,
        total: 9,
        tracks: vec![track(2)],
    };
    assert!(handle_page(&mut ui, "dev", changed).is_none());
    assert_eq!(ui.status, "读取期间手表音乐列表已变化，请重新刷新。");
    let too_long = LibraryPage {
        request_id: "library-1".into(),
        revision: "r1".into(),
        offset: 1,
        total: 2,
        tracks: vec![track(2), track(3)],
    };
    assert!(handle_page(&mut ui, "dev", too_long).is_none());
    assert_eq!(ui.device_library.len(), 2);
    assert_eq!(ui.status, "手表音乐分页数量无效，请重新刷新。");
}

#[test]
fn moving_needs_a_read_list_and_a_direction() {
    let mut ui = ready_ui();
    assert!(move_track(&mut ui, 1, "up").is_none());
    assert_eq!(ui.status, "请先刷新手表音乐列表。");
    ui.library_revision = "r1".into();
    assert!(move_track(&mut ui, 1, "left").is_none());
    assert_eq!(ui.status, "无效的排序方向。");
    let request = move_track(&mut ui, 1, "down").unwrap();
    assert_eq!(request.revision, "r1");
    assert_eq!(request.direction, "down");
    assert_eq!(ui.library_request_id, request.request_id);
}

#[test]
fn errors_are_shown_for_the_latest_request_only() {
    let mut ui = ready_ui();
    refresh(&mut ui).unwrap();
    handle_error(&mut ui, "dev", &Some("library-1".into()), &Some("busy".into()));
    assert_eq!(ui.status, "快应用正在导入音乐，请稍后重试。");
    handle_error(&mut ui, "dev", &Some("library-1".into()), &Some("odd".into()));
    assert_eq!(ui.status, "手表音乐操作失败：odd");
    handle_error(&mut ui, "dev", &Some("library-0".into()), &Some("busy".into()));
    assert_eq!(ui.status, "手表音乐操作失败：odd");
}

#[test]
fn only_library_messages_of_the_import_app_are_handled() {
    let mut ui = ready_ui();
    let msg = || LibraryMessage {
        tag: Some("lyra-library-moved".into()),
        request_id: Some(String::new()),
        code: None,
        page: Err("not a page".into()),
    };
    assert!(!handle(&mut ui, "dev", "com.other", msg()).handled);
    let step = handle(&mut ui, "dev", "com.canopus.lyraimport", msg());
    assert!(step.handled);
    // the moved message answers the (empty) latest request, so the list is read again
    assert_eq!(step.send.unwrap().request_id, "library-1");
    let bad = LibraryMessage {
        tag: Some("lyra-library-page".into()),
        request_id: None,
        code: None,
        page: Err("missing field".into()),
    };
    let step = handle(&mut ui, "dev", "com.canopus.lyraimport", bad);
    assert!(step.handled && step.send.is_none());
    assert_eq!(ui.status, "手表音乐响应无效：missing field");
}
