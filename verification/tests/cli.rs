use std::cell::RefCell;

use pipitor::cli::common::{manifest_format, AccessError, Format, Opt};
use pipitor::cli::ipc::{serve, Connection, Request, Response, ResponseCode, ServerStep};
use pipitor::cli::run::{finish, handle, Action, After, Event};
use pipitor::cli::twitter_list_sync::{is_add_error_skipped, list_update, summary};
use pipitor::cli::twitter_login::{check_user, input_verifier, logged_in, Verified};
use pipitor::cli::websub::{list, unsubscribe_selected, Row};
use pipitor::uri::Uri;
use pipitor::websub::store::Statement;

#[test]
fn searching_manifests() {
    let tried = RefCell::new(Vec::new());
    let search = |opt: &Opt, existing: &[&str], broken: &[&str]| {
        tried.borrow_mut().clear();
        opt.search_manifest(|path: &str| {
            tried.borrow_mut().push(path.to_owned());
            if existing.contains(&path) {
                Ok(1)
            } else if broken.contains(&path) {
                Err(AccessError::Other(path.to_owned()))
            } else {
                Err(AccessError::NotFound(path.to_owned()))
            }
        })
        .map(|(n, path)| (n, path.to_owned()))
    };
    let default = Opt { manifest_path: None };
    let found = search(&default, &["Pipitor.toml", "Pipitor.json"], &[]).unwrap();
    assert_eq!(found, (1, "Pipitor.toml".to_owned()));
    assert_eq!(*tried.borrow(), vec!["Pipitor.toml"]);
    let found = search(&default, &["Pipitor.json"], &[]).unwrap();
    assert_eq!(found.1, "Pipitor.json");
    match search(&default, &["Pipitor.json"], &["Pipitor.toml"]) {
        Err(AccessError::Other(path)) => assert_eq!(path, "Pipitor.toml"),
        r => panic!("{:?}", r),
    }
    match search(&default, &[], &[]) {
        Err(AccessError::NotFound(path)) => assert_eq!(path, "Pipitor.json"),
        r => panic!("{:?}", r),
    }
    let given = Opt { manifest_path: Some("m".to_owned()) };
    assert_eq!(search(&given, &["m"], &[]).unwrap().1, "m");
    match search(&given, &["Pipitor.toml"], &[]) {
        Err(AccessError::NotFound(path)) => assert_eq!(path, "m"),
        r => panic!("{:?}", r),
    }
    assert_eq!(*tried.borrow(), vec!["m"]);
}

#[test]
fn formats_of_manifests() {
    assert_eq!(manifest_format("x/Pipitor.json"), Format::Json);
    assert_eq!(manifest_format("Pipitor.toml"), Format::Toml);
    assert_eq!(manifest_format(".json"), Format::Toml);
}

#[test]
fn responses() {
    assert_eq!(ResponseCode::Success.as_str(), "SUCCESS");
    assert_eq!(ResponseCode::InternalError.as_str(), "INTERNAL_ERROR");
    assert_eq!(ResponseCode::RequestUnrecognized.as_str(), "REQUEST_UNRECOGNIZED");
    assert_eq!(ResponseCode::default(), ResponseCode::Success);
    let response = Response::default();
    assert_eq!(response.text(), "SUCCESS");
    assert!(response.result().is_ok());
    let response = Response::new(ResponseCode::InternalError, Some("m".to_owned()));
    assert_eq!(response.text(), "m");
    assert_eq!(response.result().unwrap_err().message.as_deref(), Some("m"));
}

#[test]
fn serving() {
    match serve(Connection::Unrecognized) {
        ServerStep::Respond(response) => {
            assert_eq!(response.code, ResponseCode::RequestUnrecognized);
            assert_eq!(response.text(), "request unrecognized");
        }
        step => panic!("{:?}", step),
    }
    match serve(Connection::Received(Request::Reload)) {
        ServerStep::Pass(Request::Reload) => {}
        step => panic!("{:?}", step),
    }
    for failed in [Connection::AcceptFailed, Connection::ReadFailed].iter() {
        match serve(*failed) {
            ServerStep::Skip => {}
            step => panic!("{:?}", step),
        }
    }
    match serve(Connection::Closed) {
        ServerStep::Stop => {}
        step => panic!("{:?}", step),
    }
}

#[test]
fn running() {
    assert_eq!(handle(Event::Disconnected), Action::Reset);
    assert_eq!(handle(Event::Signal), Action::Quit);
    assert_eq!(handle(Event::Ipc(Request::Reload)), Action::Reload);
    assert_eq!(handle(Event::Ipc(Request::Shutdown)), Action::Shutdown);
    for action in [Action::Reset, Action::Quit].iter() {
        assert!(finish(*action, true).1.is_none());
        let (after, response) = finish(*action, false);
        assert_eq!(after, After::Fail);
        assert!(response.is_none());
    }
    assert_eq!(finish(Action::Reset, true).0, After::Continue);
    assert_eq!(finish(Action::Quit, true).0, After::Exit);
    assert_eq!(finish(Action::Reload, true).0, After::Continue);
    assert_eq!(finish(Action::Shutdown, true).0, After::Exit);
    assert_eq!(finish(Action::Reload, true).1.unwrap().text(), "SUCCESS");
    let (after, response) = finish(Action::Reload, false);
    assert_eq!(after, After::Fail);
    assert_eq!(response.unwrap().text(), "failed to reload the manifest");
    let (after, response) = finish(Action::Shutdown, false);
    assert_eq!(after, After::Fail);
    assert_eq!(response.unwrap().text(), "error occured during shutdown");
}

#[test]
fn logging_in() {
    assert_eq!(check_user::<&str>(1, None), Ok(Some(1)));
    assert_eq!(check_user::<&str>(1, Some(Verified::Valid)), Ok(None));
    assert_eq!(check_user::<&str>(1, Some(Verified::Unauthorized)), Ok(Some(1)));
    assert_eq!(check_user(1, Some(Verified::Failed("e"))), Err("e"));
    let mut users = vec![1, 2, 3];
    assert!(logged_in(&mut users, 2));
    assert_eq!(users, vec![1, 3]);
    assert!(!logged_in(&mut users, 2));
    assert_eq!(users, vec![1, 3]);
    assert_eq!(
        input_verifier("t", &vec![1, 20]),
        "\n\
         Open the following URL in a Web browser:\n\
         https://api.twitter.com/oauth/authorize?force_login=true&oauth_token=t\n\
         Log into an account with one of the following `user_id`s:\n\
         1\n\
         20\n\
         And enter the PIN code given by Twitter:\n>"
    );
}

#[test]
fn syncing_lists() {
    let users = vec![1, 2, 2, 3];
    let members = vec![3, 4, 5];
    let update = list_update(&users, &members);
    assert_eq!(update.destroy, vec![4, 5]);
    assert_eq!(update.create, vec![1, 2]);
    assert_eq!(summary(&update), "Successfully updated the list");
    let nothing = list_update(&vec![1], &vec![1]);
    assert_eq!(summary(&nothing), "Nothing to update");
    assert!(is_add_error_skipped(&Some(vec![1, 104])));
    assert!(is_add_error_skipped(&Some(vec![108])));
    assert!(!is_add_error_skipped(&Some(vec![1])));
    assert!(!is_add_error_skipped(&None));
}

#[test]
fn listing_subscriptions() {
    let row = |id, expires_at| Row {
        id,
        hub: "h".to_owned(),
        topic: "t".to_owned(),
        secret: "s".to_owned(),
        expires_at,
    };
    let rows = vec![row(1, Some(5)), row(2, None)];
    assert_eq!(list(&rows, true), "1\th\tt\ts\t52\th\tt\ts\t");
    assert_eq!(list(&rows, false), "1\th\tt\t\t52\th\tt\t\t");

    let callback = Uri {
        scheme: Some("http".to_owned()),
        authority: Some("example.com".to_owned()),
        path: "/".to_owned(),
        query: None,
    };
    let plans = unsubscribe_selected(&callback, &rows, false, &vec![2, 3]);
    assert_eq!(plans.len(), 1);
    match plans[0].0 {
        Statement::DeleteSubscription { id } => assert_eq!(id, 2),
        ref statement => panic!("{:?}", statement),
    }
    assert!(plans[0].1.body.contains("hub.callback=http%3A%2F%2Fexample.com%2F2"));
    assert_eq!(unsubscribe_selected(&callback, &rows, true, &vec![]).len(), 2);
}
