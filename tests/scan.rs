use hoyo_signin::act_id::ActIdError;
use hoyo_signin::scripts::{
    act_id_from_script, first_capture, normalize_script_url, script_sources, starts_with_scheme, ScanAction, ScanEvent, ScriptScan,
};

const PAGE: &str = r#"<html><head>
<script type="text/javascript" src="/ys/event/signin-sea/vendors.js"></script>
<script src="https://cdn.example.com/lib/app.js"></script>
<script src="chunk.js" defer></script>
<link href="/style.css">
</head></html>"#;

const HIT: &str = r#"var u="https://webstatic-sea.mihoyo.com/ys/event/signin-sea/index.html?act_id="+Xq;var Xq = "e202102251931481";"#;

#[test]
fn scheme_is_recognised() {
    assert!(starts_with_scheme("https://a.example/x.js"));
    assert!(starts_with_scheme("git+ssh:x"));
    assert!(!starts_with_scheme("chunk.js"));
    assert!(!starts_with_scheme("1http:x"));
    assert!(!starts_with_scheme(":x"));
    assert!(!starts_with_scheme(""));
}

#[test]
fn references_are_made_absolute() {
    assert_eq!(normalize_script_url("/a/b.js").unwrap(), "https://webstatic-sea.mihoyo.com/a/b.js");
    assert_eq!(normalize_script_url("https://cdn.example.com/x.js").unwrap(), "https://cdn.example.com/x.js");
    assert_eq!(
        normalize_script_url("chunk.js").unwrap(),
        "https://webstatic-sea.mihoyo.com/ys/event/signin-sea/chunk.js"
    );
}

#[test]
fn page_scripts_in_document_order() {
    assert_eq!(
        script_sources(PAGE),
        vec![
            "https://webstatic-sea.mihoyo.com/ys/event/signin-sea/vendors.js".to_string(),
            "https://cdn.example.com/lib/app.js".to_string(),
            "https://webstatic-sea.mihoyo.com/ys/event/signin-sea/chunk.js".to_string(),
        ]
    );
    assert!(script_sources("<html></html>").is_empty());
}

#[test]
fn script_identifier_through_variable() {
    assert_eq!(act_id_from_script(HIT).unwrap(), "e202102251931481");
    assert_eq!(act_id_from_script("x='?act_id=' + v1;v1='abc'").unwrap(), "abc");
    assert_eq!(act_id_from_script("u='?act_id='+$v;var $v = 'q1'").unwrap(), "q1");
    assert!(act_id_from_script("var Xq = \"e1\";").is_none());
    assert!(act_id_from_script("u=\"?act_id=\"+Xq;").is_none());
}

#[test]
fn scan_reads_scripts_in_order_until_hit() {
    let (mut scan, a) = ScriptScan::from_page(PAGE);
    match a {
        ScanAction::Fetch(u) => assert_eq!(u, "https://webstatic-sea.mihoyo.com/ys/event/signin-sea/vendors.js"),
        other => panic!("unexpected {:?}", other),
    }
    match scan.step(ScanEvent::Script("console.log(1)".to_string())) {
        ScanAction::Fetch(u) => assert_eq!(u, "https://cdn.example.com/lib/app.js"),
        other => panic!("unexpected {:?}", other),
    }
    match scan.step(ScanEvent::Script(HIT.to_string())) {
        ScanAction::Finish(Ok(v)) => assert_eq!(v, "e202102251931481"),
        other => panic!("unexpected {:?}", other),
    }
}

#[test]
fn scan_without_hit_is_not_found() {
    let (mut scan, _) = ScriptScan::from_page(PAGE);
    assert!(matches!(scan.step(ScanEvent::Script("a".to_string())), ScanAction::Fetch(_)));
    assert!(matches!(scan.step(ScanEvent::Script("b".to_string())), ScanAction::Fetch(_)));
    assert!(matches!(scan.step(ScanEvent::Script("c".to_string())), ScanAction::Finish(Err(ActIdError::NotFound))));
    let (_, a) = ScriptScan::from_page("<html></html>");
    assert!(matches!(a, ScanAction::Finish(Err(ActIdError::NotFound))));
}

#[test]
fn scan_is_repeatable() {
    let run = || {
        let (mut scan, _) = ScriptScan::from_page(PAGE);
        scan.step(ScanEvent::Script("nothing here".to_string()));
        match scan.step(ScanEvent::Script(HIT.to_string())) {
            ScanAction::Finish(Ok(v)) => Some(v),
            _ => None,
        }
    };
    assert_eq!(run(), run());
    assert_eq!(run().unwrap(), "e202102251931481");
}

#[test]
fn scan_transport_failure_aborts() {
    let err = reqwest::Client::new().get("not a url").build().unwrap_err();
    let (mut scan, _) = ScriptScan::from_page(PAGE);
    assert!(matches!(scan.step(ScanEvent::Failed(err)), ScanAction::Finish(Err(ActIdError::ReqwestError(_)))));
}

#[test]
fn first_capture_takes_leftmost_match() {
    assert_eq!(first_capture("a(b+)", "xabbyab").unwrap(), "bb");
    assert!(first_capture("a(b+)", "xyz").is_none());
    assert!(first_capture("a|(b)", "ab").is_none());
    assert!(first_capture("(", "(").is_none());
}
