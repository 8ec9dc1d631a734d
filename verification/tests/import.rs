use lyra_player::plugin::import::check_picked_file;
use lyra_player::plugin::import::MAX_CHUNK_BYTES;
use lyra_player::plugin::import::{
    begin, cancel, check_start, handle, record_chunk, validate_assets, Awaiting, ImportAction,
    ImportAsset, ImportPacket, ImportReply, ImportTrack, Transfer, ROUTE_PACKAGE,
};
use lyra_player::plugin::state::UiState;

#[test]
fn transfer_requires_audio_first_and_unique_assets() {
    let audio = ImportAsset::audio("audio.mp3".into(), 10);
    let cover = ImportAsset::cover("cover.jpg".into(), 5, "jpg");
    assert!(validate_assets(&[audio.clone(), cover]).is_ok());
    assert!(validate_assets(&[audio.clone(), audio]).is_err());
    assert!(validate_assets(&[ImportAsset::lyrics("lyrics.lrc".into(), 4, "lrc")]).is_err());
}

fn reply(tag: &str, id: Option<&str>) -> ImportReply {
    ImportReply {
        tag: Some(tag.to_string()),
        id: id.map(str::to_string),
        version: None,
        window: None,
        encodings: Vec::new(),
        max_chunk_bytes: None,
        asset: None,
        next_seq: None,
        next_offset: None,
        received_bytes: None,
        code: None,
        message: None,
    }
}

fn track() -> ImportTrack {
    ImportTrack {
        id: 7,
        name: "Song".into(),
        artists: vec!["Artist".into()],
        album: "Album".into(),
        album_id: 8,
        duration_ms: 1000,
    }
}

fn started(assets: Vec<ImportAsset>) -> (Option<Transfer>, UiState) {
    let mut current = None;
    let mut ui = UiState::default();
    let packet = begin(&mut current, &mut ui, "dev".into(), "id-1".into(), track(), assets).unwrap();
    assert!(matches!(packet, ImportPacket::Hello { version: 2 }));
    (current, ui)
}

fn hello() -> ImportReply {
    ImportReply {
        version: Some(2),
        window: Some(1),
        encodings: vec!["base64".into()],
        max_chunk_bytes: Some(3),
        ..reply("lyra-import-hello", None)
    }
}

#[test]
fn start_checks_device_and_files() {
    let audio = ImportAsset::audio("a.mp3".into(), 3);
    assert_eq!(check_start("", &[audio.clone()]), Err("请选择已连接设备".to_string()));
    assert_eq!(check_start("dev", &[audio.clone()]), Ok(()));
    assert_eq!(check_start("dev", &[]), Err("导入必须以一个音频资源开始".to_string()));
    let empty = ImportAsset::audio("a.mp3".into(), 0);
    assert_eq!(check_start("dev", &[empty]), Err("导入资源为空或重复".to_string()));
}

#[test]
fn second_import_is_refused_while_one_runs() {
    let (mut current, mut ui) = started(vec![ImportAsset::audio("a.mp3".into(), 3)]);
    assert!(ui.active);
    assert_eq!(ui.total, 3);
    let again = begin(
        &mut current,
        &mut ui,
        "dev".into(),
        "id-2".into(),
        track(),
        vec![ImportAsset::audio("b.mp3".into(), 3)],
    );
    assert_eq!(again.err(), Some("已有导入任务正在运行".to_string()));
    assert_eq!(current.as_ref().unwrap().id, "id-1");
}

#[test]
fn whole_transfer_runs_through_the_protocol() {
    let (mut current, mut ui) = started(vec![ImportAsset::audio("a.mp3".into(), 5)]);
    // hello: the watch allows chunks of three bytes
    let action = handle(&mut current, &mut ui, "dev", ROUTE_PACKAGE, &hello());
    let ImportAction::Send(ImportPacket::Begin { id, assets, .. }) = action else {
        panic!("expected begin");
    };
    assert_eq!(id, "id-1");
    assert_eq!(assets.len(), 1);
    assert_eq!(current.as_ref().unwrap().chunk_bytes, 3);
    assert_eq!(current.as_ref().unwrap().awaiting, Awaiting::Ready);
    // ready for the audio file
    let ready = ImportReply {
        asset: Some("audio".into()),
        next_seq: Some(0),
        next_offset: Some(0),
        window: Some(1),
        max_chunk_bytes: Some(4096),
        ..reply("lyra-import-ready", Some("id-1"))
    };
    let action = handle(&mut current, &mut ui, "dev", ROUTE_PACKAGE, &ready);
    assert!(matches!(action, ImportAction::ReadChunk { asset_index: 0, offset: 0, len: 3 }));
    assert_eq!(ui.status, "正在传输音频…");
    let packet = record_chunk(current.as_mut().unwrap(), b"abc");
    let ImportPacket::Chunk { seq, offset, data, crc32, encoding, .. } = packet else {
        panic!("expected chunk");
    };
    assert_eq!((seq, offset), (0, 0));
    assert_eq!(data, "YWJj");
    assert_eq!(crc32, "352441c2");
    assert_eq!(encoding, "base64");
    // the acknowledgement confirms three bytes
    let ack = ImportReply {
        asset: Some("audio".into()),
        next_seq: Some(1),
        next_offset: Some(3),
        received_bytes: Some(3),
        ..reply("lyra-import-ack", Some("id-1"))
    };
    let action = handle(&mut current, &mut ui, "dev", ROUTE_PACKAGE, &ack);
    assert!(matches!(action, ImportAction::ReadChunk { asset_index: 0, offset: 3, len: 2 }));
    assert_eq!(ui.sent, 3);
    record_chunk(current.as_mut().unwrap(), b"de");
    let ack = ImportReply {
        asset: Some("audio".into()),
        next_seq: Some(2),
        next_offset: Some(5),
        received_bytes: Some(5),
        ..reply("lyra-import-ack", Some("id-1"))
    };
    let action = handle(&mut current, &mut ui, "dev", ROUTE_PACKAGE, &ack);
    assert!(matches!(action, ImportAction::Send(ImportPacket::AssetEnd { asset: "audio", .. })));
    assert_eq!(current.as_ref().unwrap().awaiting, Awaiting::AssetsDone);
    let action = handle(
        &mut current,
        &mut ui,
        "dev",
        ROUTE_PACKAGE,
        &reply("lyra-import-assets-done", Some("id-1")),
    );
    assert!(matches!(action, ImportAction::Send(ImportPacket::Commit { .. })));
    let action =
        handle(&mut current, &mut ui, "dev", ROUTE_PACKAGE, &reply("lyra-import-done", Some("id-1")));
    assert!(matches!(action, ImportAction::Completed));
    assert!(current.is_none());
    assert!(!ui.active);
    assert_eq!(ui.sent, 5);
    assert_eq!(ui.status, "导入完成；Lyra Player 将自动刷新音乐库。");
}

#[test]
fn messages_from_elsewhere_are_ignored() {
    let (mut current, mut ui) = started(vec![ImportAsset::audio("a.mp3".into(), 5)]);
    let before = ui.status.clone();
    assert!(matches!(
        handle(&mut current, &mut ui, "dev", "com.other", &hello()),
        ImportAction::Ignore
    ));
    assert!(matches!(
        handle(&mut current, &mut ui, "other-dev", ROUTE_PACKAGE, &hello()),
        ImportAction::Ignore
    ));
    assert!(matches!(
        handle(&mut current, &mut ui, "dev", ROUTE_PACKAGE, &reply("lyra-import-ack", Some("id-9"))),
        ImportAction::Ignore
    ));
    assert_eq!(ui.status, before);
    assert_eq!(current.as_ref().unwrap().awaiting, Awaiting::Hello);
}

#[test]
fn old_protocol_and_wrong_ack_end_the_import() {
    let (mut current, mut ui) = started(vec![ImportAsset::audio("a.mp3".into(), 5)]);
    let old = ImportReply { version: Some(1), ..hello() };
    let action = handle(&mut current, &mut ui, "dev", ROUTE_PACKAGE, &old);
    assert!(matches!(action, ImportAction::Failed(ref m) if m == "快应用不支持 Lyra Import v2 单窗口协议"));
    assert!(current.is_none());
    assert_eq!(ui.status, "导入失败：快应用不支持 Lyra Import v2 单窗口协议");

    let (mut current, mut ui) = started(vec![ImportAsset::audio("a.mp3".into(), 5)]);
    let no_base64 = ImportReply { encodings: vec!["hex".into()], ..hello() };
    let action = handle(&mut current, &mut ui, "dev", ROUTE_PACKAGE, &no_base64);
    assert!(matches!(action, ImportAction::Failed(ref m) if m == "快应用不支持 base64 分片"));

    let (mut current, mut ui) = started(vec![ImportAsset::audio("a.mp3".into(), 5)]);
    handle(&mut current, &mut ui, "dev", ROUTE_PACKAGE, &hello());
    let ready = ImportReply {
        asset: Some("audio".into()),
        next_seq: Some(0),
        next_offset: Some(0),
        window: Some(1),
        max_chunk_bytes: Some(2),
        ..reply("lyra-import-ready", Some("id-1"))
    };
    assert!(matches!(
        handle(&mut current, &mut ui, "dev", ROUTE_PACKAGE, &ready),
        ImportAction::ReadChunk { len: 2, .. }
    ));
    record_chunk(current.as_mut().unwrap(), b"ab");
    let ack = ImportReply {
        asset: Some("audio".into()),
        next_seq: Some(1),
        next_offset: Some(2),
        received_bytes: Some(9),
        ..reply("lyra-import-ack", Some("id-1"))
    };
    let action = handle(&mut current, &mut ui, "dev", ROUTE_PACKAGE, &ack);
    assert!(matches!(action, ImportAction::Failed(ref m) if m == "累计 ACK 与已发送位置不一致"));
    assert!(current.is_none());
}

#[test]
fn watch_errors_and_cancel_end_the_import() {
    let (mut current, mut ui) = started(vec![ImportAsset::audio("a.mp3".into(), 5)]);
    let error = ImportReply {
        code: Some("no-space".into()),
        ..reply("lyra-import-error", Some("id-1"))
    };
    let action = handle(&mut current, &mut ui, "dev", ROUTE_PACKAGE, &error);
    assert!(matches!(action, ImportAction::Failed(ref m) if m == "no-space: quick app rejected import"));

    let (mut current, mut ui) = started(vec![ImportAsset::audio("a.mp3".into(), 5)]);
    let pending = cancel(&mut current, &mut ui);
    let Some((addr, ImportPacket::Cancel { id })) = pending else {
        panic!("expected cancel");
    };
    assert_eq!((addr.as_str(), id.as_str()), ("dev", "id-1"));
    assert!(current.is_none());
    assert_eq!(ui.status, "已取消导入。");
    assert!(cancel(&mut current, &mut ui).is_none());
}

#[test]
fn picked_files_are_checked_by_kind() {
    let ok = check_picked_file("media/a.MP3", "a.MP3", "audio", true, 10).unwrap();
    assert_eq!((ok.name.as_str(), ok.size), ("a.MP3", 10));
    assert_eq!(
        check_picked_file("media/a.wav", "a.wav", "audio", true, 10).err(),
        Some("unsupported audio file extension".to_string())
    );
    assert_eq!(
        check_picked_file("media/c.png", "c.png", "cover", true, 5 * 1024 * 1024).err(),
        Some("selected cover file exceeds import limit".to_string())
    );
    assert_eq!(
        check_picked_file("media/a.mp3", "a.mp3", "audio", true, 0).err(),
        Some("selected file is empty".to_string())
    );
    assert_eq!(
        check_picked_file("media/a.mp3", "a.mp3", "video", true, 3).err(),
        Some("unknown asset kind".to_string())
    );
}

#[test]
fn maximum_base64_chunk_fits_interconnect_frame() {
    let bytes = vec![0xff; MAX_CHUNK_BYTES];
    let mut frame = serde_json::Map::new();
    frame.insert("tag".into(), "lyra-import-chunk".into());
    frame.insert("id".into(), "0123456789abcdef0123456789abcdef".into());
    frame.insert("asset".into(), "audio".into());
    frame.insert("seq".into(), 16_384u64.into());
    frame.insert("offset".into(), 67_108_864u64.into());
    frame.insert("encoding".into(), "base64".into());
    frame.insert(
        "data".into(),
        base64::Engine::encode(&base64::engine::general_purpose::STANDARD, &bytes).into(),
    );
    frame.insert("crc32".into(), "ffffffff".into());
    let frame = serde_json::Value::Object(frame).to_string();
    assert!(frame.len() < 8192, "frame was {} bytes", frame.len());
}

#[test]
fn assets_of_an_unknown_kind_are_refused() {
    let audio = ImportAsset::audio("audio.mp3".into(), 10);
    let other = ImportAsset {
        kind: "x",
        path: "other.bin".into(),
        size: 1,
        extension: None,
        format: None,
    };
    assert_eq!(
        validate_assets(&[audio.clone(), other.clone()]),
        Err("不支持的导入资源类型".to_string())
    );
    assert_eq!(
        check_start("watch", &[audio.clone(), other]),
        Err("不支持的导入资源类型".to_string())
    );
    let lyrics = ImportAsset::lyrics("lyrics.lrc".into(), 4, "lrc");
    let cover = ImportAsset::cover("cover.png".into(), 5, "png");
    assert_eq!(validate_assets(&[audio, cover, lyrics]), Ok(()));
}

#[test]
fn empty_or_repeated_assets_are_refused_before_unknown_kinds() {
    let audio = ImportAsset::audio("audio.mp3".into(), 10);
    let empty = ImportAsset {
        kind: "x",
        path: "other.bin".into(),
        size: 0,
        extension: None,
        format: None,
    };
    assert_eq!(
        validate_assets(&[audio, empty]),
        Err("导入资源为空或重复".to_string())
    );
}
