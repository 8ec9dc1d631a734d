use lyra_player::model::Song;
use lyra_player::playback::{AudioSink, PlaybackState, Player};

#[derive(Default)]
struct ShortSink {
    bytes: Vec<u8>,
    max_write: usize,
    volume_percent: u8,
}

impl AudioSink for ShortSink {
    type Error = ();
    fn configure_mp3(&mut self) -> Result<(), Self::Error> {
        Ok(())
    }
    fn start(&mut self) -> Result<(), Self::Error> {
        Ok(())
    }
    fn write(&mut self, bytes: &[u8]) -> Result<usize, Self::Error> {
        let count = bytes.len().min(self.max_write);
        self.bytes.extend_from_slice(&bytes[..count]);
        Ok(count)
    }
    fn pause(&mut self) -> Result<(), Self::Error> {
        Ok(())
    }
    fn resume(&mut self) -> Result<(), Self::Error> {
        Ok(())
    }
    fn stop(&mut self) -> Result<(), Self::Error> {
        Ok(())
    }
    fn drain(&mut self) -> Result<(), Self::Error> {
        Ok(())
    }
    fn set_volume(&mut self, percent: u8) -> Result<(), Self::Error> {
        self.volume_percent = percent;
        Ok(())
    }
}

#[test]
fn stream_end_waits_for_pending_short_writes() {
    let mut player = Player {
        state: PlaybackState::Buffering,
        ..Player::default()
    };
    let mut sink = ShortSink {
        max_write: 2,
        ..ShortSink::default()
    };
    assert!(!player.push_audio(b"abcde".to_vec(), &mut sink).unwrap());
    assert!(!player.stream_ended(&mut sink).unwrap());
    assert_eq!(player.state, PlaybackState::Buffering);
    assert!(player.stream_ended(&mut sink).unwrap());
    assert_eq!(sink.bytes, b"abcde");
    assert_eq!(player.state, PlaybackState::Draining);
}

#[test]
fn retains_short_writes_until_flushed() {
    let mut player = Player {
        state: PlaybackState::Buffering,
        ..Player::default()
    };
    let mut sink = ShortSink {
        max_write: 2,
        ..ShortSink::default()
    };
    assert!(!player.push_audio(b"abcde".to_vec(), &mut sink).unwrap());
    assert!(!player.flush_audio(&mut sink).unwrap());
    assert!(player.flush_audio(&mut sink).unwrap());
    assert_eq!(sink.bytes, b"abcde");
    assert_eq!(player.state, PlaybackState::Playing);
}

#[test]
fn volume_is_clamped_and_sent_to_sink() {
    let mut player = Player::default();
    let mut sink = ShortSink::default();
    player.set_volume(110, &mut sink).unwrap();
    assert_eq!(player.volume_percent, 100);
    assert_eq!(sink.volume_percent, 100);
    player.set_volume(40, &mut sink).unwrap();
    assert_eq!(player.volume_percent, 40);
    assert_eq!(sink.volume_percent, 40);
}

#[test]
fn discovered_duration_updates_current_song_and_clamps_position() {
    let mut player = Player {
        current: Some(Song {
            duration_ms: 0,
            ..Song::default()
        }),
        position_ms: 9_000,
        ..Player::default()
    };
    player.set_duration(5_000);
    assert_eq!(player.duration_ms, 5_000);
    assert_eq!(player.current.as_ref().unwrap().duration_ms, 5_000);
    assert_eq!(player.position_ms, 5_000);
}

#[test]
fn external_volume_sync_only_reports_real_changes() {
    let mut player = Player::default();
    assert!(!player.sync_volume(100));
    assert!(player.sync_volume(41));
    assert_eq!(player.volume_percent, 41);
    assert!(!player.sync_volume(41));
}

#[test]
fn driver_position_advances_when_duration_is_unknown() {
    let mut player = Player {
        state: PlaybackState::Playing,
        duration_ms: 0,
        ..Player::default()
    };
    assert!(player.sync_position(1_250));
    assert_eq!(player.position_ms, 1_250);
    player.tick(500);
    assert_eq!(player.position_ms, 1_750);
}

#[test]
fn opened_stream_starts_buffering_from_zero() {
    let mut player = Player::default();
    let mut sink = ShortSink { max_write: 4, ..ShortSink::default() };
    player.select(Song { id: 1, name: "A".into(), ..Song::default() }, vec![Song { id: 2, ..Song::default() }]);
    player.stream_opened("s1".to_string(), &mut sink).unwrap();
    assert_eq!(player.state, PlaybackState::Buffering);
    assert_eq!(player.stream_id.as_deref(), Some("s1"));
    assert_eq!(player.position_ms, 0);
    let next = player.take_next().unwrap();
    assert_eq!(next.id, 2);
    assert!(player.take_next().is_none());
}

#[derive(Default)]
struct LogSink {
    log: Vec<String>,
    bytes: Vec<u8>,
    max_write: usize,
    fail_writes: bool,
}

impl AudioSink for LogSink {
    type Error = ();
    fn configure_mp3(&mut self) -> Result<(), Self::Error> {
        self.log.push("configure".to_string());
        Ok(())
    }
    fn start(&mut self) -> Result<(), Self::Error> {
        self.log.push("start".to_string());
        Ok(())
    }
    fn write(&mut self, bytes: &[u8]) -> Result<usize, Self::Error> {
        if self.fail_writes {
            self.log.push(format!("write {} failed", bytes.len()));
            return Err(());
        }
        let count = bytes.len().min(self.max_write);
        self.bytes.extend_from_slice(&bytes[..count]);
        self.log.push(format!("write {} took {}", bytes.len(), count));
        Ok(count)
    }
    fn pause(&mut self) -> Result<(), Self::Error> {
        self.log.push("pause".to_string());
        Ok(())
    }
    fn resume(&mut self) -> Result<(), Self::Error> {
        self.log.push("resume".to_string());
        Ok(())
    }
    fn stop(&mut self) -> Result<(), Self::Error> {
        self.log.push("stop".to_string());
        Ok(())
    }
    fn drain(&mut self) -> Result<(), Self::Error> {
        self.log.push("drain".to_string());
        Ok(())
    }
    fn set_volume(&mut self, percent: u8) -> Result<(), Self::Error> {
        self.log.push(format!("volume {}", percent));
        Ok(())
    }
}

#[test]
fn flush_offers_the_rest_of_each_piece_and_stops_after_a_short_write() {
    let mut player = Player {
        state: PlaybackState::Buffering,
        ..Player::default()
    };
    let mut sink = LogSink {
        max_write: 2,
        ..LogSink::default()
    };
    assert!(!player.push_audio(b"abc".to_vec(), &mut sink).unwrap());
    assert_eq!(sink.log, vec!["write 3 took 2"]);
    assert_eq!(player.state, PlaybackState::Buffering);
    assert!(player.push_audio(b"de".to_vec(), &mut sink).unwrap());
    assert_eq!(sink.log, vec!["write 3 took 2", "write 1 took 1", "write 2 took 2"]);
    assert_eq!(sink.bytes, b"abcde");
    assert_eq!(player.state, PlaybackState::Playing);
}

#[test]
fn flush_with_nothing_pending_writes_nothing() {
    let mut player = Player {
        state: PlaybackState::Buffering,
        ..Player::default()
    };
    let mut sink = LogSink::default();
    assert!(player.flush_audio(&mut sink).unwrap());
    assert!(sink.log.is_empty());
    assert_eq!(player.state, PlaybackState::Playing);
}

#[test]
fn zero_byte_write_keeps_everything_pending() {
    let mut player = Player {
        state: PlaybackState::Buffering,
        ..Player::default()
    };
    let mut sink = LogSink::default();
    assert!(!player.push_audio(b"xy".to_vec(), &mut sink).unwrap());
    assert!(!player.flush_audio(&mut sink).unwrap());
    assert_eq!(sink.log, vec!["write 2 took 0", "write 2 took 0"]);
    sink.max_write = 8;
    assert!(player.flush_audio(&mut sink).unwrap());
    assert_eq!(sink.bytes, b"xy");
}

#[test]
fn failed_write_is_reported_and_keeps_the_piece() {
    let mut player = Player {
        state: PlaybackState::Buffering,
        ..Player::default()
    };
    let mut sink = LogSink {
        fail_writes: true,
        ..LogSink::default()
    };
    assert!(player.push_audio(b"xyz".to_vec(), &mut sink).is_err());
    assert_eq!(player.state, PlaybackState::Buffering);
    sink.fail_writes = false;
    sink.max_write = 8;
    assert!(player.flush_audio(&mut sink).unwrap());
    assert_eq!(sink.log, vec!["write 3 failed", "write 3 took 3"]);
    assert_eq!(sink.bytes, b"xyz");
}

#[test]
fn stream_end_drains_only_after_everything_is_written() {
    let mut player = Player {
        state: PlaybackState::Buffering,
        ..Player::default()
    };
    let mut sink = LogSink {
        max_write: 1,
        ..LogSink::default()
    };
    assert!(!player.push_audio(b"abc".to_vec(), &mut sink).unwrap());
    assert!(!player.stream_ended(&mut sink).unwrap());
    assert_eq!(sink.log, vec!["write 3 took 1", "write 2 took 1"]);
    assert_eq!(player.state, PlaybackState::Buffering);
    assert!(player.stream_ended(&mut sink).unwrap());
    assert_eq!(sink.log, vec!["write 3 took 1", "write 2 took 1", "write 1 took 1", "drain"]);
    assert_eq!(sink.bytes, b"abc");
    assert_eq!(player.state, PlaybackState::Draining);
}

#[test]
fn pushing_no_bytes_is_a_flush() {
    let mut pushed = Player {
        state: PlaybackState::Buffering,
        ..Player::default()
    };
    let mut first = LogSink {
        max_write: 2,
        ..LogSink::default()
    };
    assert!(!pushed.push_audio(b"abcde".to_vec(), &mut first).unwrap());
    let mut flushed = pushed.clone();
    let mut second = LogSink {
        max_write: 2,
        ..LogSink::default()
    };
    let mut third = LogSink {
        max_write: 2,
        ..LogSink::default()
    };
    let a = pushed.push_audio(Vec::new(), &mut second).unwrap();
    let b = flushed.flush_audio(&mut third).unwrap();
    assert_eq!(a, b);
    assert_eq!(second.log, third.log);
    assert_eq!(second.bytes, third.bytes);
    assert_eq!(pushed.state, flushed.state);
}

#[test]
fn a_run_of_pushes_delivers_a_prefix_of_what_was_pushed() {
    let mut player = Player {
        state: PlaybackState::Buffering,
        ..Player::default()
    };
    let mut sink = LogSink {
        max_write: 3,
        ..LogSink::default()
    };
    let mut all = Vec::new();
    for piece in [&b"hello"[..], b"", b"wo", b"rld!"] {
        all.extend_from_slice(piece);
        let done = player.push_audio(piece.to_vec(), &mut sink).unwrap();
        assert!(all.starts_with(&sink.bytes));
        assert_eq!(done, sink.bytes == all);
    }
    while !player.flush_audio(&mut sink).unwrap() {}
    assert_eq!(sink.bytes, all);
}
