use sticker_downloader::query_command::{DownloadFormat, DownloadTarget, QueryAction, QueryCommand};

#[test]
fn smoke() {
    let command = QueryCommand::download(DownloadTarget::Single, DownloadFormat::Png);

    assert_eq!(command.encode(), "0dsp");
    assert_eq!(QueryCommand::decode(&command.encode()).unwrap(), command);
}

#[test]
fn every_command_round_trips() {
    for target in [DownloadTarget::Single, DownloadTarget::All] {
        for format in [DownloadFormat::Png, DownloadFormat::Webp] {
            let command = QueryCommand::download(target, format);
            let token = command.encode();
            assert_eq!(QueryCommand::decode(&token), Some(command));
            assert_eq!(command.action, QueryAction::Download(sticker_downloader::query_command::ActionDownload { target, format }));
        }
    }
}

#[test]
fn tokens_of_each_command() {
    assert_eq!(QueryCommand::download(DownloadTarget::Single, DownloadFormat::Webp).encode(), "0dsw");
    assert_eq!(QueryCommand::download(DownloadTarget::All, DownloadFormat::Png).encode(), "0dap");
    assert_eq!(QueryCommand::download(DownloadTarget::All, DownloadFormat::Webp).encode(), "0daw");
}

#[test]
fn unknown_tags_are_refused() {
    for token in ["1dsp", "0xsp", "0dxp", "0dsx", "Xdsp", "0dsP", "ädsp"] {
        assert_eq!(QueryCommand::decode(token), None, "{token}");
    }
}

#[test]
fn truncated_and_overlong_tokens_are_refused() {
    for token in ["", "0", "0d", "0ds", "0dspp", "0dsp0"] {
        assert_eq!(QueryCommand::decode(token), None, "{token}");
    }
}

#[test]
fn format_extensions_and_sending_alone() {
    assert_eq!(DownloadFormat::Png.ext(), "png");
    assert_eq!(DownloadFormat::Webp.ext(), "webp");
    assert!(DownloadFormat::Png.is_fine_for_sending_alone());
    assert!(!DownloadFormat::Webp.is_fine_for_sending_alone());
}
