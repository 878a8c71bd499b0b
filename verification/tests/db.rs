use openmusicplayer::musicbrainz::models::LifeSpan;
use openmusicplayer::{CreatePlaylist, CreateUser, DownloadStatus};

#[test]
fn status_from_text() {
    assert_eq!(DownloadStatus::from("pending".to_string()), DownloadStatus::Pending);
    assert_eq!(DownloadStatus::from("downloading".to_string()), DownloadStatus::Downloading);
    assert_eq!(DownloadStatus::from("processing".to_string()), DownloadStatus::Processing);
    assert_eq!(DownloadStatus::from("completed".to_string()), DownloadStatus::Completed);
    assert_eq!(DownloadStatus::from("failed".to_string()), DownloadStatus::Failed);
}

#[test]
fn unknown_status_text_reads_as_pending() {
    assert_eq!(DownloadStatus::from("".to_string()), DownloadStatus::Pending);
    assert_eq!(DownloadStatus::from("Failed".to_string()), DownloadStatus::Pending);
    assert_eq!(DownloadStatus::from("failed ".to_string()), DownloadStatus::Pending);
    assert_eq!(DownloadStatus::from("cancelled".to_string()), DownloadStatus::Pending);
    assert_eq!(DownloadStatus::from_text("COMPLETED"), DownloadStatus::Pending);
}

#[test]
fn status_to_text() {
    assert_eq!(String::from(DownloadStatus::Pending), "pending");
    assert_eq!(String::from(DownloadStatus::Downloading), "downloading");
    assert_eq!(String::from(DownloadStatus::Processing), "processing");
    assert_eq!(String::from(DownloadStatus::Completed), "completed");
    assert_eq!(String::from(DownloadStatus::Failed), "failed");
    assert_eq!(DownloadStatus::Failed.as_str(), "failed");
}

#[test]
fn status_round_trip() {
    for status in [
        DownloadStatus::Pending,
        DownloadStatus::Downloading,
        DownloadStatus::Processing,
        DownloadStatus::Completed,
        DownloadStatus::Failed,
    ] {
        assert_eq!(DownloadStatus::from(String::from(status.clone())), status);
        assert_eq!(DownloadStatus::from_text(status.as_str()), status);
    }
}

#[test]
fn input_records() {
    let user = CreateUser { email: "a@example.org".to_string(), password_hash: "h".to_string() };
    assert_eq!(user.clone().email, "a@example.org");
    let playlist = CreatePlaylist { user_id: 7, name: "Mix".to_string(), description: None };
    assert_eq!(playlist.user_id, 7);
    assert!(playlist.description.is_none());
    let span = LifeSpan { begin: Some("1966-02-06".to_string()), end: None, ended: Some(false) };
    assert_eq!(span.begin.as_deref(), Some("1966-02-06"));
    assert_eq!(span.ended, Some(false));
}
