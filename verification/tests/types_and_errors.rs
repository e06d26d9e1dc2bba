use subvertpy::client::{AddOptions, CatOptions, CheckoutOptions, Client, ExportOptions};
use subvertpy::common::{
    map_py_err_to_svn_err, map_py_object_to_svn_err, map_svn_error_to_py_err, stream_from_object,
    ErrorChain, RaisedException, STATUS_GENERAL,
};
use subvertpy::history::{get_location_segments, get_locations, LocationSegment, STATUS_FS_NOT_FOUND};
use subvertpy::types::{CommitInfo, ConfigError, Depth, Dirent, NativeEOL, NodeKind, Revision};

#[test]
fn depth_codes_are_part_of_the_contract() {
    assert_eq!(Depth::Empty.to_code(), 0);
    assert_eq!(Depth::Files.to_code(), 1);
    assert_eq!(Depth::Immediates.to_code(), 2);
    assert_eq!(Depth::Infinity.to_code(), 3);
    for depth in [Depth::Empty, Depth::Files, Depth::Immediates, Depth::Infinity] {
        assert_eq!(Depth::from_code(depth.to_code() as i64), Some(depth));
    }
    assert_eq!(Depth::from_code(4), None);
    assert_eq!(Depth::from_code(-1), None);
    assert_eq!(Depth::default(), Depth::Infinity);
    assert_eq!(Depth::or_default(None), Depth::Infinity);
    assert_eq!(Depth::or_default(Some(Depth::Files)), Depth::Files);
}

#[test]
fn node_kind_codes_are_part_of_the_contract() {
    assert_eq!(NodeKind::NoNode.to_code(), 0);
    assert_eq!(NodeKind::File.to_code(), 1);
    assert_eq!(NodeKind::Dir.to_code(), 2);
    assert_eq!(NodeKind::Symlink.to_code(), 3);
    assert_eq!(NodeKind::Unknown.to_code(), 4);
    for kind in [NodeKind::NoNode, NodeKind::File, NodeKind::Dir, NodeKind::Symlink, NodeKind::Unknown] {
        assert_eq!(NodeKind::from_code(kind.to_code()), Some(kind));
    }
    assert_eq!(NodeKind::from_code(5), None);
    assert_eq!(NodeKind::from_code(-3), None);
}

#[test]
fn an_omitted_revision_is_unspecified() {
    assert_eq!(Revision::default(), Revision::Unspecified);
    assert_eq!(Revision::or_default(None), Revision::Unspecified);
    assert_eq!(Revision::or_default(Some(Revision::Head)), Revision::Head);
    assert_eq!(Revision::Number(9).number(), Some(9));
    assert_eq!(Revision::Date(9).number(), None);
    assert_eq!(Revision::Working.number(), None);
}

#[test]
fn native_eol_is_read_from_its_word() {
    assert_eq!(NativeEOL::parse(None), Ok(NativeEOL::Standard));
    assert_eq!(NativeEOL::parse(Some("LF")), Ok(NativeEOL::LF));
    assert_eq!(NativeEOL::parse(Some("CR")), Ok(NativeEOL::CR));
    assert_eq!(NativeEOL::parse(Some("CRLF")), Ok(NativeEOL::CRLF));
    assert_eq!(NativeEOL::default(), NativeEOL::Standard);
}

#[test]
fn an_unknown_native_eol_is_an_error_not_the_standard() {
    assert_eq!(NativeEOL::parse(Some("lf")), Err(ConfigError::UnknownNativeEol));
    assert_eq!(NativeEOL::parse(Some("native")), Err(ConfigError::UnknownNativeEol));
    assert_eq!(NativeEOL::parse(Some("")), Err(ConfigError::UnknownNativeEol));
    assert_eq!(NativeEOL::parse(Some("CRLF ")), Err(ConfigError::UnknownNativeEol));
    assert_eq!(
        ConfigError::UnknownNativeEol.message(),
        "native_eol must be one of 'LF', 'CR', 'CRLF' or None"
    );
}

#[test]
fn commit_info_gives_its_parts() {
    let info = CommitInfo::new(
        42,
        "2024-01-02T03:04:05.000000Z".to_string(),
        "alice".to_string(),
        Some("hook warned".to_string()),
    );
    assert_eq!(info.revision(), 42);
    assert_eq!(info.date(), "2024-01-02T03:04:05.000000Z");
    assert_eq!(info.author(), "alice");
    assert_eq!(info.post_commit_err(), Some("hook warned"));
    let copy = info.dup();
    assert_eq!(copy.revision(), 42);
    assert_eq!(copy.author(), "alice");
    assert_eq!(copy.post_commit_err(), Some("hook warned"));
    let quiet = CommitInfo::new(1, String::new(), String::new(), None);
    assert_eq!(quiet.post_commit_err(), None);
}

#[test]
fn a_dirent_copy_is_independent() {
    let dirent = Dirent {
        kind: NodeKind::File,
        size: 120,
        has_props: true,
        created_rev: 8,
        time: 1700000000,
        last_author: Some("bob".to_string()),
    };
    let copy = dirent.dup();
    drop(dirent);
    assert_eq!(copy.kind, NodeKind::File);
    assert_eq!(copy.size, 120);
    assert!(copy.has_props);
    assert_eq!(copy.created_rev, 8);
    assert_eq!(copy.time, 1700000000);
    assert_eq!(copy.last_author.as_deref(), Some("bob"));
}

fn chain() -> ErrorChain {
    ErrorChain {
        message: "commit failed".to_string(),
        status_code: 160024,
        cause: Some(Box::new(ErrorChain {
            message: "out of date".to_string(),
            status_code: 155011,
            cause: None,
            origin: Some(("libsvn_ra/commit.c".to_string(), 77)),
        })),
        origin: Some(("libsvn_client/commit.c".to_string(), 12)),
    }
}

#[test]
fn an_error_chain_becomes_nested_exceptions() {
    let raised = map_svn_error_to_py_err(&chain());
    match raised {
        RaisedException::Subversion { message, status_code, child, location } => {
            assert_eq!(message, "commit failed");
            assert_eq!(status_code, 160024);
            assert_eq!(location, Some(("libsvn_client/commit.c".to_string(), 12)));
            match *child.unwrap() {
                RaisedException::Subversion { message, status_code, child, location } => {
                    assert_eq!(message, "out of date");
                    assert_eq!(status_code, 155011);
                    assert!(child.is_none());
                    assert_eq!(location, Some(("libsvn_ra/commit.c".to_string(), 77)));
                }
                RaisedException::Foreign { .. } => panic!("the child is of the engine's kind"),
            }
        }
        RaisedException::Foreign { .. } => panic!("the exception is of the engine's kind"),
    }
}

#[test]
fn an_error_chain_comes_back_without_its_origins() {
    let raised = map_svn_error_to_py_err(&chain());
    let back = map_py_object_to_svn_err(&raised);
    assert_eq!(back.message, "commit failed");
    assert_eq!(back.status_code, 160024);
    assert_eq!(back.origin, None);
    let cause = back.cause.unwrap();
    assert_eq!(cause.message, "out of date");
    assert_eq!(cause.status_code, 155011);
    assert_eq!(cause.origin, None);
    assert!(cause.cause.is_none());
}

#[test]
fn a_foreign_exception_becomes_one_general_failure() {
    let err = map_py_err_to_svn_err(RaisedException::Foreign {
        text: "ValueError: bad".to_string(),
    });
    assert_eq!(err.message, "ValueError: bad");
    assert_eq!(err.status_code, STATUS_GENERAL);
    assert_eq!(STATUS_GENERAL, 20014);
    assert!(err.cause.is_none());
    assert!(err.origin.is_none());

    let nested = map_py_err_to_svn_err(RaisedException::Subversion {
        message: "outer".to_string(),
        status_code: 7,
        child: Some(Box::new(RaisedException::Foreign { text: "inner".to_string() })),
        location: Some(("x.py".to_string(), 3)),
    });
    assert_eq!(nested.message, "outer");
    assert_eq!(nested.status_code, 7);
    let inner = nested.cause.unwrap();
    assert_eq!(inner.message, "inner");
    assert_eq!(inner.status_code, STATUS_GENERAL);
}

#[test]
fn error_chains_are_built_and_copied() {
    let inner = ErrorChain::from_message("inner");
    assert_eq!(inner.status_code, STATUS_GENERAL);
    let outer = ErrorChain::new(5, Some(inner), "outer");
    assert_eq!(outer.message, "outer");
    assert_eq!(outer.status_code, 5);
    assert!(outer.origin.is_none());
    let copy = outer.dup();
    drop(outer);
    assert_eq!(copy.message, "outer");
    assert_eq!(copy.cause.as_ref().unwrap().message, "inner");
    let alone = ErrorChain::new(9, None, "alone");
    assert!(alone.cause.is_none());
}

#[test]
fn a_stream_is_made_from_bytes_only() {
    assert_eq!(stream_from_object(Some(vec![1, 2, 3])).unwrap(), vec![1, 2, 3]);
    assert_eq!(stream_from_object(Some(Vec::new())).unwrap(), Vec::<u8>::new());
    match stream_from_object(None).unwrap_err() {
        RaisedException::Subversion { message, child, .. } => {
            assert_eq!(message, "Invalid stream object");
            assert!(child.is_none());
        }
        RaisedException::Foreign { .. } => panic!("the exception is of the engine's kind"),
    }
}

#[test]
fn a_path_that_did_not_exist_gives_no_locations() {
    let found = get_locations(Ok(vec![(3, "/trunk/a".to_string()), (1, "/a".to_string())]));
    assert_eq!(found.unwrap(), vec![(3, "/trunk/a".to_string()), (1, "/a".to_string())]);
    let missing = get_locations(Err(ErrorChain::new(STATUS_FS_NOT_FOUND, None, "not found")));
    assert_eq!(missing.unwrap(), Vec::new());
    let broken = get_locations(Err(ErrorChain::new(170013, None, "cannot connect")));
    assert_eq!(broken.unwrap_err().status_code, 170013);
    assert_eq!(STATUS_FS_NOT_FOUND, 160013);
}

#[test]
fn a_path_that_did_not_exist_gives_no_segments() {
    let segment = LocationSegment { range_start: 2, range_end: 9, path: Some("trunk".to_string()) };
    let copy = segment.dup();
    assert_eq!(copy.range_start, 2);
    assert_eq!(copy.range_end, 9);
    assert_eq!(copy.path.as_deref(), Some("trunk"));
    let found = get_location_segments(Ok(vec![segment])).unwrap();
    assert_eq!(found.len(), 1);
    assert_eq!(found[0].range_end, 9);
    let missing = get_location_segments(Err(ErrorChain::new(STATUS_FS_NOT_FOUND, None, "gone")));
    assert!(missing.unwrap().is_empty());
    let broken = get_location_segments(Err(ErrorChain::from_message("boom")));
    assert_eq!(broken.unwrap_err().message, "boom");
}

#[test]
fn choices_left_open_are_made_for_the_caller() {
    let client = Client::new();
    assert_eq!(
        client.add(None, None, None, None, None),
        AddOptions {
            depth: Depth::Infinity,
            force: false,
            no_ignore: false,
            add_parents: false,
            no_autoprops: false
        }
    );
    assert_eq!(
        client.add(Some(Depth::Empty), Some(true), None, Some(true), Some(false)),
        AddOptions {
            depth: Depth::Empty,
            force: true,
            no_ignore: false,
            add_parents: true,
            no_autoprops: false
        }
    );
    assert_eq!(
        client.checkout(None, Some(Revision::Number(4)), None, Some(true), None),
        CheckoutOptions {
            revision: Revision::Unspecified,
            peg_revision: Revision::Number(4),
            depth: Depth::Infinity,
            ignore_externals: true,
            allow_unver_obstructions: false
        }
    );
    assert_eq!(
        client.cat(Some(Revision::Head), None, None),
        CatOptions {
            revision: Revision::Head,
            peg_revision: Revision::Unspecified,
            expand_keywords: false
        }
    );
}

#[test]
fn export_reads_the_native_eol_or_fails() {
    let client = Client::new();
    assert_eq!(
        client.export(Some(Revision::Number(3)), None, Some(Depth::Files), None, Some(true), Some("CRLF"), None),
        Ok(ExportOptions {
            peg_revision: Revision::Unspecified,
            revision: Revision::Number(3),
            overwrite: true,
            ignore_externals: false,
            ignore_keywords: false,
            depth: Depth::Files,
            native_eol: NativeEOL::CRLF
        })
    );
    assert_eq!(
        client.export(None, None, None, None, None, None, None).unwrap().native_eol,
        NativeEOL::Standard
    );
    assert_eq!(
        client.export(None, None, None, None, None, Some("unix"), None),
        Err(ConfigError::UnknownNativeEol)
    );
}

#[test]
fn write_operations_resolve_their_options() {
    let mut client = Client::new();
    let made = client.mkdir(vec!["a".to_string()], None, None, true);
    assert_eq!(made.paths, vec!["a".to_string()]);
    assert!(!made.make_parents);
    assert!(made.revprops.is_empty());
    let deep = client.mkdir(Vec::new(), Some(true), None, false);
    assert!(deep.make_parents);
    let gone = client.delete(vec!["b".to_string()], Some(true), None, None, true);
    assert!(gone.force);
    assert!(!gone.keep_local);
    assert!(gone.revprops.is_empty());
    assert_eq!(client.callback_invocations(), 0);
}
