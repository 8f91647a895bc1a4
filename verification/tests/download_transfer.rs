use phyrexian_library::utility::download::error::{IoErrorKind, IoFailure, TransportFailure};
use phyrexian_library::utility::download::ranges::PartialRangeIter;
use phyrexian_library::utility::download::state::Download;
use phyrexian_library::utility::download::transfer::{
    read_content_length, Transfer, TransferCommand, TransferEvent, TransferStage, BUFFER_SIZE,
    DOWNLOAD_SPEED_INTERVAL,
};

/// Feeds the events to a new transfer to `output`, makes each change to a
/// pending record, and returns where both have got to, with the commands
/// that the transfer gave and how often it asked for a restart of the
/// clock.
fn drive(output: &str, events: Vec<TransferEvent>) -> (Transfer, Download, Vec<TransferCommand>, usize) {
    let mut transfer = Transfer::new(output);
    let mut download = Download::pending();
    let mut commands = Vec::new();
    let mut restarts = 0;
    for event in events {
        let (next, reaction) = transfer.advance(event);
        transfer = next;
        if let Some(update) = reaction.update {
            download.apply(update);
        }
        if reaction.restart_clock {
            restarts += 1;
        }
        commands.push(reaction.command);
    }
    (transfer, download, commands, restarts)
}

fn opening(content_length: Option<&str>) -> Vec<TransferEvent> {
    vec![
        TransferEvent::Started,
        TransferEvent::UrlResolved,
        TransferEvent::ResponseReceived {
            status_code: 200,
            content_length: content_length.map(|text| text.to_string()),
        },
        TransferEvent::DestinationInspected { is_directory: false, has_parent: true },
        TransferEvent::DirectoryCreated,
        TransferEvent::FileOpened,
    ]
}

fn chunk(length: usize) -> Vec<TransferEvent> {
    vec![
        TransferEvent::ClockRead { elapsed: Some(1_000) },
        TransferEvent::ChunkRead { length },
        TransferEvent::ChunkWritten,
    ]
}

fn end_of_stream() -> Vec<TransferEvent> {
    vec![TransferEvent::ClockRead { elapsed: Some(1_000) }, TransferEvent::ChunkRead { length: 0 }]
}

#[test]
fn test_partial_range_iter() {
    let start = 1;
    let end = 1045;
    let step = 34;
    let range_iter = PartialRangeIter::new(start, end, step);
    let mut range: Vec<String> = Vec::new();
    let mut i = start;
    while i <= end {
        let lower = i;
        i += step;
        if i > end {
            range.push(format!("{}-{}", lower, end));
        } else {
            range.push(format!("{}-{}", lower, i - 1));
        }
    }
    assert_eq!(range_iter.collect(), range);
}

#[test]
fn partial_range_iter_gives_each_range_once() {
    let mut walk = PartialRangeIter::new(0, 25, 10);
    assert_eq!(walk.next(), Some("0-9".to_string()));
    assert_eq!(walk.next(), Some("10-19".to_string()));
    assert_eq!(walk.next(), Some("20-25".to_string()));
    assert_eq!(walk.next(), None);
    assert_eq!(walk.next(), None);
    assert_eq!(PartialRangeIter::new(5, 4, 3).collect(), Vec::<String>::new());
    assert_eq!(PartialRangeIter::new(7, 7, 1).collect(), vec!["7-7".to_string()]);
    assert_eq!(
        PartialRangeIter::new(4_294_967_290, u32::MAX, 4).collect(),
        vec!["4294967290-4294967293".to_string(), "4294967294-4294967295".to_string()]
    );
    assert_eq!(
        PartialRangeIter::new(0, u32::MAX, u32::MAX).collect(),
        vec!["0-4294967294".to_string(), "4294967295-4294967295".to_string()]
    );
}

#[test]
fn transfer_runs_through_its_stages() {
    let mut events = opening(Some("8"));
    events.extend(chunk(5));
    events.extend(chunk(3));
    events.extend(end_of_stream());
    let (transfer, download, commands, restarts) = drive("/tmp/out.bin", events);
    assert_eq!(
        commands,
        vec![
            TransferCommand::ResolveUrl,
            TransferCommand::SendRequest,
            TransferCommand::InspectDestination,
            TransferCommand::CreateParentDirectory,
            TransferCommand::OpenFile,
            TransferCommand::ReadClock,
            TransferCommand::ReadChunk,
            TransferCommand::WriteChunk { length: 5 },
            TransferCommand::ReadClock,
            TransferCommand::ReadChunk,
            TransferCommand::WriteChunk { length: 3 },
            TransferCommand::ReadClock,
            TransferCommand::ReadChunk,
            TransferCommand::Stop,
        ]
    );
    assert_eq!(restarts, 1);
    assert!(transfer.is_finished());
    assert_eq!(transfer.stage(), TransferStage::Finished);
    assert_eq!(transfer.written(), 8);
    assert!(download.status().is_successful());
    assert_eq!(download.get_downloaded_size(), 8);
    assert_eq!(download.get_total_size(), Some(8));
}

#[test]
fn transfer_starts_by_marking_the_download_running() {
    let transfer = Transfer::new("/tmp/x");
    assert_eq!(transfer.stage(), TransferStage::Created);
    assert_eq!(transfer.pending_command(), TransferCommand::Begin);
    let (transfer, download, commands, _) = drive("/tmp/x", vec![TransferEvent::Started]);
    assert_eq!(transfer.stage(), TransferStage::ResolvingUrl);
    assert_eq!(commands, vec![TransferCommand::ResolveUrl]);
    assert!(download.status().is_running());
}

#[test]
fn rejected_url_fails_with_a_transport_error() {
    let (transfer, download, commands, _) = drive(
        "/tmp/x",
        vec![
            TransferEvent::Started,
            TransferEvent::UrlRejected(TransportFailure::new("relative URL without a base")),
        ],
    );
    assert!(transfer.is_finished());
    assert_eq!(commands[1], TransferCommand::Stop);
    let cause = download.status().get_error().unwrap();
    assert!(!cause.is_io());
    assert_eq!(cause.to_string(), "relative URL without a base");
}

#[test]
fn failed_request_fails_with_a_transport_error() {
    let (transfer, download, _, _) = drive(
        "/tmp/x",
        vec![
            TransferEvent::Started,
            TransferEvent::UrlResolved,
            TransferEvent::RequestFailed(TransportFailure::new("connection refused")),
        ],
    );
    assert!(transfer.is_finished());
    let cause = download.status().get_error().unwrap();
    assert!(!cause.is_io());
    assert_eq!(cause.to_string(), "connection refused");
}

#[test]
fn response_without_success_fails_with_the_status_code() {
    for (code, message) in [(404u16, "404 status code."), (199, "199 status code."), (300, "300 status code."), (500, "500 status code.")] {
        let (transfer, download, commands, _) = drive(
            "/tmp/x",
            vec![
                TransferEvent::Started,
                TransferEvent::UrlResolved,
                TransferEvent::ResponseReceived { status_code: code, content_length: Some("12".to_string()) },
            ],
        );
        assert!(transfer.is_finished());
        assert_eq!(commands[2], TransferCommand::Stop);
        let cause = download.status().get_error().unwrap();
        assert!(cause.is_io());
        assert_eq!(cause.to_string(), message);
        assert_eq!(download.get_total_size(), None);
    }
    for code in [200u16, 204, 299] {
        let (transfer, download, _, _) = drive(
            "/tmp/x",
            vec![
                TransferEvent::Started,
                TransferEvent::UrlResolved,
                TransferEvent::ResponseReceived { status_code: code, content_length: None },
            ],
        );
        assert_eq!(transfer.stage(), TransferStage::InspectingDestination);
        assert!(download.status().is_running());
    }
}

#[test]
fn destination_that_is_a_directory_fails_without_a_write() {
    let (transfer, download, commands, _) = drive(
        "/tmp/some \"dir\"",
        vec![
            TransferEvent::Started,
            TransferEvent::UrlResolved,
            TransferEvent::ResponseReceived { status_code: 200, content_length: Some("5".to_string()) },
            TransferEvent::DestinationInspected { is_directory: true, has_parent: true },
            // Whatever is reported after the end changes nothing.
            TransferEvent::FileOpened,
            TransferEvent::ChunkRead { length: 5 },
            TransferEvent::ChunkWritten,
        ],
    );
    assert!(transfer.is_finished());
    assert_eq!(transfer.written(), 0);
    let cause = download.status().get_error().unwrap();
    assert!(cause.is_io());
    assert_eq!(cause.to_string(), "\"/tmp/some \\\"dir\\\"\" is a folder, not a file.");
    assert_eq!(download.get_downloaded_size(), 0);
    for command in commands.iter() {
        assert_ne!(*command, TransferCommand::OpenFile);
        assert!(!matches!(command, TransferCommand::WriteChunk { .. }));
    }
    assert_eq!(commands[3..].to_vec(), vec![TransferCommand::Stop; 4]);
}

#[test]
fn destination_without_a_parent_fails() {
    let (transfer, download, _, _) = drive(
        "",
        vec![
            TransferEvent::Started,
            TransferEvent::UrlResolved,
            TransferEvent::ResponseReceived { status_code: 200, content_length: None },
            TransferEvent::DestinationInspected { is_directory: false, has_parent: false },
        ],
    );
    assert!(transfer.is_finished());
    let cause = download.status().get_error().unwrap();
    assert!(cause.is_io());
    assert_eq!(cause.to_string(), "\"\" has no parent folder.");
}

#[test]
fn directory_and_file_failures_end_the_transfer() {
    let mut events = opening(None);
    events.truncate(4);
    events.push(TransferEvent::DirectoryFailed(IoFailure::new(IoErrorKind::PermissionDenied, "denied")));
    let (transfer, download, _, _) = drive("/root/x/y", events);
    assert!(transfer.is_finished());
    assert_eq!(download.status().get_error().unwrap().to_string(), "denied");

    let mut events = opening(None);
    events.truncate(5);
    events.push(TransferEvent::OpenFailed(IoFailure::new(IoErrorKind::NotFound, "missing")));
    let (transfer, download, _, _) = drive("/root/x/y", events);
    assert!(transfer.is_finished());
    let cause = download.status().get_error().unwrap();
    assert!(cause.is_io());
    assert_eq!(cause.to_string(), "missing");
}

#[test]
fn missing_content_length_is_no_failure() {
    for header in [None, Some(""), Some("abc"), Some("12 "), Some("-3"), Some("18446744073709551616")] {
        let mut events = opening(header);
        events.extend(chunk(7));
        assert!(drive("/tmp/x", opening(header)).1.status().is_running());
        assert_eq!(drive("/tmp/x", opening(header)).1.get_total_size(), None);
        events.extend(chunk(2));
        events.extend(end_of_stream());
        let (transfer, download, _, _) = drive("/tmp/x", events);
        assert!(download.status().is_successful());
        assert_eq!(download.get_total_size(), None);
        assert_eq!(download.get_downloaded_size(), 9);
        assert_eq!(transfer.written(), 9);
    }
}

#[test]
fn content_length_is_read_as_a_number() {
    assert_eq!(read_content_length(&None), None);
    assert_eq!(read_content_length(&Some("0".to_string())), Some(0));
    assert_eq!(read_content_length(&Some("1234".to_string())), Some(1234));
    assert_eq!(read_content_length(&Some("+17".to_string())), Some(17));
    assert_eq!(read_content_length(&Some("007".to_string())), Some(7));
    assert_eq!(read_content_length(&Some("18446744073709551615".to_string())), Some(u64::MAX));
    assert_eq!(read_content_length(&Some("18446744073709551616".to_string())), None);
    assert_eq!(read_content_length(&Some("".to_string())), None);
    assert_eq!(read_content_length(&Some("+".to_string())), None);
    assert_eq!(read_content_length(&Some("1_000".to_string())), None);
    assert_eq!(read_content_length(&Some(" 5".to_string())), None);
    assert_eq!(read_content_length(&Some("0x10".to_string())), None);
}

#[test]
fn interrupted_read_is_retried() {
    let mut plain = opening(Some("8"));
    plain.extend(chunk(5));
    plain.extend(chunk(3));
    plain.extend(end_of_stream());
    let (plain_transfer, plain_download, _, _) = drive("/tmp/x", plain);

    let mut interrupted = opening(Some("8"));
    interrupted.extend(chunk(5));
    interrupted.push(TransferEvent::ClockRead { elapsed: Some(1_000) });
    interrupted.push(TransferEvent::ReadFailed(IoFailure::new(IoErrorKind::Interrupted, "signal")));
    interrupted.extend(chunk(3));
    interrupted.extend(end_of_stream());
    let (transfer, download, commands, _) = drive("/tmp/x", interrupted);
    // After the interruption the driver is sent back to the clock and the read.
    assert_eq!(commands[10], TransferCommand::ReadClock);
    assert_eq!(commands[11], TransferCommand::ReadChunk);
    assert!(download.status().is_successful());
    assert_eq!(download.get_downloaded_size(), plain_download.get_downloaded_size());
    assert_eq!(download.get_downloaded_size(), 8);
    assert_eq!(transfer.written(), plain_transfer.written());
    assert!(plain_download.status().is_successful());
}

#[test]
fn other_read_and_write_failures_end_the_transfer() {
    let mut events = opening(None);
    events.extend(chunk(5));
    events.push(TransferEvent::ClockRead { elapsed: None });
    events.push(TransferEvent::ReadFailed(IoFailure::new(IoErrorKind::UnexpectedEof, "cut off")));
    let (transfer, download, commands, _) = drive("/tmp/x", events);
    assert!(transfer.is_finished());
    assert_eq!(*commands.last().unwrap(), TransferCommand::Stop);
    assert_eq!(download.status().get_error().unwrap().to_string(), "cut off");
    assert_eq!(download.get_downloaded_size(), 5);

    let mut events = opening(None);
    events.push(TransferEvent::ClockRead { elapsed: None });
    events.push(TransferEvent::ChunkRead { length: 4 });
    events.push(TransferEvent::WriteFailed(IoFailure::new(IoErrorKind::Interrupted, "signal")));
    let (transfer, download, commands, _) = drive("/tmp/x", events);
    assert_eq!(transfer.stage(), TransferStage::Writing { length: 4 });
    assert_eq!(*commands.last().unwrap(), TransferCommand::WriteChunk { length: 4 });
    assert!(download.status().is_running());

    let mut events = opening(None);
    events.push(TransferEvent::ClockRead { elapsed: None });
    events.push(TransferEvent::ChunkRead { length: 4 });
    events.push(TransferEvent::WriteFailed(IoFailure::new(IoErrorKind::WriteZero, "full")));
    let (transfer, download, _, _) = drive("/tmp/x", events);
    assert!(transfer.is_finished());
    assert!(download.status().get_error().unwrap().is_io());
    assert_eq!(download.get_downloaded_size(), 0);
}

#[test]
fn speed_is_sampled_after_the_interval() {
    let mut events = opening(None);
    events.extend(chunk(BUFFER_SIZE));
    events.extend(chunk(1000));
    // The clock has run for a quarter of a second: the speed is measured.
    events.push(TransferEvent::ClockRead { elapsed: Some(250_000_000) });
    let (transfer, download, commands, restarts) = drive("/tmp/x", events);
    assert_eq!(transfer.stage(), TransferStage::Reading);
    assert_eq!(*commands.last().unwrap(), TransferCommand::ReadChunk);
    assert_eq!(restarts, 2);
    let speed = download.get_download_speed().unwrap();
    assert_eq!(speed.bytes(), BUFFER_SIZE as u64 + 1000);
    assert_eq!(speed.nanoseconds(), 250_000_000);
    assert_eq!(speed.bytes_per_second(), (BUFFER_SIZE as u128 + 1000) * 4);

    // The next measurement counts only what came since.
    let mut events = opening(None);
    events.extend(chunk(1000));
    events.push(TransferEvent::ClockRead { elapsed: Some(DOWNLOAD_SPEED_INTERVAL) });
    events.push(TransferEvent::ChunkRead { length: 300 });
    events.push(TransferEvent::ChunkWritten);
    events.push(TransferEvent::ClockRead { elapsed: Some(DOWNLOAD_SPEED_INTERVAL - 1) });
    let (_, download, _, restarts) = drive("/tmp/x", events);
    assert_eq!(restarts, 2);
    assert_eq!(download.get_download_speed().unwrap().bytes(), 1000);
    let mut events = opening(None);
    events.extend(chunk(1000));
    events.push(TransferEvent::ClockRead { elapsed: Some(DOWNLOAD_SPEED_INTERVAL) });
    events.push(TransferEvent::ChunkRead { length: 300 });
    events.push(TransferEvent::ChunkWritten);
    events.push(TransferEvent::ClockRead { elapsed: Some(400_000_000) });
    let (_, download, _, restarts) = drive("/tmp/x", events);
    assert_eq!(restarts, 3);
    assert_eq!(download.get_download_speed().unwrap().bytes(), 300);
    assert_eq!(download.get_download_speed().unwrap().bytes_per_second(), 750);
}

#[test]
fn unexpected_events_change_nothing() {
    let (transfer, download, commands, _) = drive(
        "/tmp/x",
        vec![
            TransferEvent::ChunkWritten,
            TransferEvent::Started,
            TransferEvent::Started,
            TransferEvent::FileOpened,
        ],
    );
    assert_eq!(
        commands,
        vec![
            TransferCommand::Begin,
            TransferCommand::ResolveUrl,
            TransferCommand::ResolveUrl,
            TransferCommand::ResolveUrl,
        ]
    );
    assert_eq!(transfer.stage(), TransferStage::ResolvingUrl);
    assert!(download.status().is_running());
}

#[test]
fn statuses_follow_pending_running_terminal() {
    let mut events = opening(Some("3"));
    events.extend(chunk(3));
    events.extend(end_of_stream());
    events.push(TransferEvent::Started);
    let mut transfer = Transfer::new("/tmp/x");
    let mut download = Download::pending();
    let mut ranks: Vec<u8> = vec![0];
    for event in events {
        let (next, reaction) = transfer.advance(event);
        transfer = next;
        if let Some(update) = reaction.update {
            download.apply(update);
        }
        let rank = if download.status().is_pending() {
            0
        } else if download.status().is_running() {
            1
        } else {
            2
        };
        assert!(rank >= *ranks.last().unwrap());
        ranks.push(rank);
    }
    assert_eq!(ranks[1], 1);
    assert_eq!(*ranks.last().unwrap(), 2);
    assert!(download.status().is_successful());
}
