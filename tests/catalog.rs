use hoyo_signin::act_id::{act_id_from_catalog, act_id_from_path, ActIdError};
use hoyo_signin::api::{ApiResponse, HoyolabGame, HoyolabGameList, HoyolabGameTool};

fn tool(id: i32, web_path: &str) -> HoyolabGameTool {
    HoyolabGameTool { id, name: format!("tool {}", id), web_path: web_path.to_string() }
}

fn game(game_id: i32, tools: Vec<HoyolabGameTool>) -> HoyolabGame {
    HoyolabGame { game_id, game_name: format!("game {}", game_id), tools }
}

fn ok(games: Vec<HoyolabGame>) -> ApiResponse<HoyolabGameList> {
    ApiResponse { retcode: 0, message: "OK".to_string(), data: Some(HoyolabGameList { games }) }
}

const PATH: &str = "https://webstatic-sea.mihoyo.com/ys/event/signin-sea/index.html?act_id=e202102251931481&lang=en-us";

#[test]
fn catalog_yields_act_id() {
    let resp = ok(vec![
        game(1, vec![tool(19, "https://x.example/?act_id=wrong")]),
        game(2, vec![tool(3, "https://x.example/?act_id=other"), tool(19, PATH)]),
    ]);
    assert_eq!(act_id_from_catalog(resp).unwrap(), "e202102251931481");
}

#[test]
fn catalog_without_game_is_not_found() {
    let resp = ok(vec![game(1, vec![tool(19, PATH)])]);
    assert!(matches!(act_id_from_catalog(resp), Err(ActIdError::NotFound)));
}

#[test]
fn catalog_without_tool_is_not_found() {
    let resp = ok(vec![game(2, vec![tool(18, PATH)]), game(2, vec![tool(19, PATH)])]);
    assert!(matches!(act_id_from_catalog(resp), Err(ActIdError::NotFound)));
}

#[test]
fn catalog_path_without_act_id_is_not_found() {
    let resp = ok(vec![game(2, vec![tool(19, "https://x.example/index.html?lang=en-us")])]);
    assert!(matches!(act_id_from_catalog(resp), Err(ActIdError::NotFound)));
}

#[test]
fn catalog_unparsable_path_is_not_found() {
    let resp = ok(vec![game(2, vec![tool(19, "not a url?act_id=1")])]);
    assert!(matches!(act_id_from_catalog(resp), Err(ActIdError::NotFound)));
}

#[test]
fn catalog_provider_error_is_not_found() {
    let resp: ApiResponse<HoyolabGameList> = ApiResponse { retcode: -1, message: "no".to_string(), data: None };
    assert!(matches!(act_id_from_catalog(resp), Err(ActIdError::NotFound)));
    let empty: ApiResponse<HoyolabGameList> = ApiResponse { retcode: 0, message: "OK".to_string(), data: None };
    assert!(matches!(act_id_from_catalog(empty), Err(ActIdError::NotFound)));
}

#[test]
fn path_query_value_is_decoded() {
    assert_eq!(act_id_from_path("https://a.example/p?x=1&act_id=a%20b&act_id=c").unwrap(), "a b");
    assert!(act_id_from_path("https://a.example/p").is_none());
}
