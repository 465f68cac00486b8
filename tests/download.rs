use down_on_spot::audio_format::{is_ogg, AudioFormat, DownloadOrderStrategy};
use down_on_spot::convert::{next_step, AudioBitrate, ReadStep, TranscodeEvent};
use down_on_spot::download::{
    available_track, file_id, file_name, header_offset, should_transcode, DecryptedAudioFile,
    DownloadProgress, FileId, Track, SPOTIFY_OGG_HEADER_END,
};
use down_on_spot::error::DownOnSpotError;
use down_on_spot::format::Strategy;
use down_on_spot::job::{is_done, DownloadJob, DownloadQueue, JobPhase};
use down_on_spot::parse::{resolve, EntityKind};

fn track(id: u128, files: Vec<(AudioFormat, FileId)>, alternatives: Vec<u128>, available: bool) -> Track {
    Track {
        id,
        name: "Song".to_string(),
        artists: vec![7],
        files,
        alternatives,
        available,
    }
}

#[test]
fn ogg_track_without_transcoding() {
    assert_eq!(resolve("spotify:track:ABC123").ok().map(|r| r.0), Some(EntityKind::Track));
    let fid = FileId([3; 20]);
    let t = track(1, vec![(AudioFormat::OGG_VORBIS_320, fid)], vec![], true);
    let (got, format) = file_id(&DownloadOrderStrategy::QUALITY, &t).ok().unwrap();
    assert_eq!(got, fid);
    assert_eq!(format, AudioFormat::OGG_VORBIS_320);
    assert!(!should_transcode(format, false));
    assert_eq!(file_name("Artist", "Song", format, false), "Artist - Song.ogg");
}

#[test]
fn ogg_track_with_transcoding() {
    let fid = FileId([3; 20]);
    let t = track(1, vec![(AudioFormat::OGG_VORBIS_320, fid)], vec![], true);
    let (_, format) = file_id(&DownloadOrderStrategy::QUALITY, &t).ok().unwrap();
    assert!(should_transcode(format, true));
    assert_eq!(AudioBitrate::from(format), AudioBitrate::Q320);
    assert_eq!(file_name("Artist", "Song", format, true), "Artist - Song.mp3");
    let decrypted = DecryptedAudioFile::new((), 1000, format).ok().unwrap();
    assert_eq!(decrypted.size, 1000 - 0xA7);
    let (mut job, _) = DownloadJob::start();
    job.begin(decrypted.size);
    assert_eq!(job.on_data(&[0u8; 50]), DownloadProgress::Progress { current: 50, total: 833 });
    assert_eq!(job.on_data(&[0u8; 900]), DownloadProgress::Progress { current: 950, total: 833 });
}

#[test]
fn mp3_track_named_mp3() {
    assert_eq!(file_name("A", "B", AudioFormat::MP3_320, false), "A - B.mp3");
    assert!(!should_transcode(AudioFormat::MP3_320, true));
}

#[test]
fn quality_prefers_higher_tier() {
    let t = track(
        1,
        vec![(AudioFormat::MP3_256, FileId([1; 20])), (AudioFormat::OGG_VORBIS_320, FileId([2; 20]))],
        vec![],
        true,
    );
    let (fid, format) = file_id(&DownloadOrderStrategy::QUALITY, &t).ok().unwrap();
    assert_eq!(format, AudioFormat::OGG_VORBIS_320);
    assert_eq!(fid, FileId([2; 20]));
    let (_, format) = file_id(&DownloadOrderStrategy::MP3, &t).ok().unwrap();
    assert_eq!(format, AudioFormat::MP3_256);
}

#[test]
fn nothing_playable_is_unavailable() {
    let t = track(1, vec![(AudioFormat::AAC_160, FileId([1; 20]))], vec![], true);
    assert!(matches!(file_id(&DownloadOrderStrategy::QUALITY, &t), Err(DownOnSpotError::Unavailable)));
    let ogg_only = track(1, vec![(AudioFormat::OGG_VORBIS_96, FileId([1; 20]))], vec![], true);
    assert!(matches!(file_id(&DownloadOrderStrategy::MP3, &ogg_only), Err(DownOnSpotError::Unavailable)));
}

#[test]
fn strategy_orders() {
    assert_eq!(
        Strategy::QUALITY.formats(),
        vec![
            AudioFormat::MP3_320,
            AudioFormat::OGG_VORBIS_320,
            AudioFormat::MP3_256,
            AudioFormat::MP3_160,
            AudioFormat::MP3_160_ENC,
            AudioFormat::OGG_VORBIS_160,
            AudioFormat::MP3_96,
            AudioFormat::OGG_VORBIS_96,
        ]
    );
    assert_eq!(DownloadOrderStrategy::OGG.formats().len(), 3);
    assert_eq!(Strategy::MP3.formats(), DownloadOrderStrategy::MP3.formats());
    assert!(is_ogg(AudioFormat::OGG_VORBIS_160));
    assert!(!is_ogg(AudioFormat::MP3_160));
}

#[test]
fn playable_track_is_kept() {
    let t = track(5, vec![(AudioFormat::MP3_96, FileId([1; 20]))], vec![8, 9], true);
    assert!(t.lookups().is_empty());
    let alt = track(8, vec![(AudioFormat::MP3_96, FileId([2; 20]))], vec![], true);
    let r = available_track(t, vec![Some(alt)]).unwrap();
    assert_eq!(r.id, 5);
}

#[test]
fn blocked_track_falls_back() {
    let t = track(5, vec![], vec![8, 9, 10], false);
    assert_eq!(t.lookups(), vec![8, 9, 10]);
    let blocked = track(9, vec![], vec![], false);
    let open = track(10, vec![(AudioFormat::MP3_96, FileId([2; 20]))], vec![], true);
    let r = available_track(t, vec![None, Some(blocked), Some(open)]).unwrap();
    assert_eq!(r.id, 10);
}

#[test]
fn blocked_track_without_available_alternative() {
    let t = track(5, vec![], vec![8], false);
    let blocked = track(8, vec![], vec![], false);
    assert!(available_track(t, vec![None, Some(blocked)]).is_none());
    let lone = track(6, vec![], vec![], false);
    assert!(available_track(lone, vec![]).is_none());
}

#[test]
fn stream_lengths() {
    assert_eq!(SPOTIFY_OGG_HEADER_END, 167);
    assert_eq!(header_offset(AudioFormat::OGG_VORBIS_96), 167);
    assert_eq!(header_offset(AudioFormat::MP3_320), 0);
    let ogg = DecryptedAudioFile::new(7u8, 5000, AudioFormat::OGG_VORBIS_160).ok().unwrap();
    assert!(ogg.is_ogg);
    assert_eq!(ogg.size, 5000 - 167);
    assert_eq!(ogg.audio_decrypt, 7u8);
    let mp3 = DecryptedAudioFile::new((), 5000, AudioFormat::MP3_320).ok().unwrap();
    assert!(!mp3.is_ogg);
    assert_eq!(mp3.size, 5000);
    assert!(matches!(
        DecryptedAudioFile::new((), 100, AudioFormat::OGG_VORBIS_320),
        Err(DownOnSpotError::DownloaderError)
    ));
    assert_eq!(DecryptedAudioFile::new((), 167, AudioFormat::OGG_VORBIS_320).ok().unwrap().size, 0);
}

#[test]
fn transcoding_skips_empty_frames() {
    assert_eq!(next_step(TranscodeEvent::Decoded(0)), ReadStep::Decode);
    assert_eq!(next_step(TranscodeEvent::Decoded(1024)), ReadStep::Encode);
    assert_eq!(next_step(TranscodeEvent::Encoded(0)), ReadStep::Decode);
    assert_eq!(next_step(TranscodeEvent::Encoded(417)), ReadStep::Return(417));
    assert_eq!(next_step(TranscodeEvent::EndOfStream), ReadStep::Return(0));
}

#[test]
fn bitrate_settings() {
    assert_eq!(AudioBitrate::from(AudioFormat::OGG_VORBIS_160), AudioBitrate::Q160);
    assert_eq!(AudioBitrate::from(AudioFormat::OGG_VORBIS_96), AudioBitrate::Q96);
    assert_eq!(AudioBitrate::from(AudioFormat::MP3_96), AudioBitrate::Q320);
    assert_eq!(i32::from(&AudioBitrate::Q160), 160);
    assert_eq!(u8::from(&AudioBitrate::Q96), 5);
    assert_eq!(AudioBitrate::Q320.encoder_settings(), (320, 0));
    assert_eq!(AudioBitrate::Q160.encoder_settings(), (160, 2));
}

#[test]
fn progress_events_of_a_finished_job() {
    let (mut job, first) = DownloadJob::start();
    assert_eq!(first, DownloadProgress::Started);
    assert_eq!(job.phase(), JobPhase::Started);
    job.begin(10);
    assert_eq!(job.on_data(&[1, 2, 3]), DownloadProgress::Progress { current: 3, total: 10 });
    let e = DownOnSpotError::IoError(std::io::ErrorKind::Interrupted, "again".to_string());
    assert!(job.on_read_error(true, e).is_none());
    assert_eq!(job.phase(), JobPhase::Downloading);
    assert_eq!(job.on_data(&[4]), DownloadProgress::Progress { current: 4, total: 10 });
    assert_eq!(job.on_data(&[]), DownloadProgress::Finished);
    assert_eq!(job.phase(), JobPhase::Finished);
    assert_eq!(job.into_data(), vec![1, 2, 3, 4]);
}

#[test]
fn read_failure_ends_job() {
    let (mut job, _) = DownloadJob::start();
    job.begin(10);
    let e = DownOnSpotError::IoError(std::io::ErrorKind::BrokenPipe, "cut".to_string());
    assert!(matches!(job.on_read_error(false, e), Some(Err(DownOnSpotError::IoError(_, _)))));
    assert_eq!(job.phase(), JobPhase::Failed);
    let (mut early, _) = DownloadJob::start();
    assert!(matches!(early.fail(DownOnSpotError::Unavailable), Err(DownOnSpotError::Unavailable)));
    assert_eq!(early.phase(), JobPhase::Failed);
}

#[test]
fn queue_bounds_and_reaps() {
    let mut q: DownloadQueue<&str> = DownloadQueue::new(3);
    assert_eq!(q.submit("a"), None);
    assert_eq!(q.submit("b"), None);
    assert_eq!(q.submit("c"), None);
    assert_eq!(q.submit("d"), Some("d"));
    assert_eq!(q.len(), 3);
    let jobs = q.take_all();
    assert_eq!(jobs, vec!["a", "b", "c"]);
    let latest = vec![
        Some(Ok(DownloadProgress::Progress { current: 1, total: 2 })),
        Some(Ok(DownloadProgress::Finished)),
        Some(Ok(DownloadProgress::Started)),
    ];
    q.reap(jobs, &latest);
    assert_eq!(q.take_all(), vec!["a", "c"]);
    assert!(is_done(&None));
    assert!(is_done(&Some(Err(DownOnSpotError::Unavailable))));
    assert!(!is_done(&Some(Ok(DownloadProgress::Started))));
}
