use robertao::bot::add::{
    confirmation, mentions_fit, params_from_groups, params_from_outcome, parse_add_params, plan_sale, try_parse_add_params,
    AddParams, AddPlan, Entity, EntityKind, SMART_QUOTES_REPLY, USAGE_REPLY,
};
use robertao::bot::del::{deleted_reply, plan, DelPlan};
use robertao::bot::lend::{answer, handler as lend_handler};
use robertao::bot::{help_reply, parse_command, Command};
use robertao::db::market::{Location, Market, SellingItem, ShopType, Timestamp};
use robertao::db::oid::ObjectId;
use robertao::db::sale::UserMention;

fn mention_at(msg: &str, name: &str) -> Entity {
    let offset = msg.find(name).unwrap() as i64;
    Entity { offset, length: name.len() as i64, kind: EntityKind::Mention }
}

fn shop(id: u8, owner: &str, items: Vec<SellingItem>) -> Market {
    Market {
        _id: ObjectId { bytes: [id; 12] },
        title: "Loja".to_string(),
        owner: owner.to_string(),
        location: Location { map: "prontera".to_string(), x: 150, y: 180 },
        creation_date: Timestamp { seconds: 1_600_000_000, nanoseconds: 0 },
        tipo: ShopType::V,
        items,
    }
}

#[test]
fn commands_are_read_from_the_first_word() {
    assert_eq!(parse_command("/help", "robertao"), Some(Command::Help));
    assert_eq!(parse_command("/add 501 \"x\" @a", "robertao"), Some(Command::Add));
    assert_eq!(parse_command("/list", "robertao"), Some(Command::List));
    assert_eq!(parse_command("/del 5f1a00ff1009abcdef012345", "robertao"), Some(Command::Del));
    assert_eq!(parse_command("/lend Me empresta? 10 zenys", "robertao"), Some(Command::Lend));
}

#[test]
fn command_may_name_the_bot() {
    assert_eq!(parse_command("/list@robertao", "robertao"), Some(Command::List));
    assert_eq!(parse_command("/add@robertao 501 \"x\" @a", "robertao"), Some(Command::Add));
    assert_eq!(parse_command("/list@outrobot", "robertao"), None);
}

#[test]
fn other_messages_are_no_commands() {
    assert_eq!(parse_command("", "robertao"), None);
    assert_eq!(parse_command("help", "robertao"), None);
    assert_eq!(parse_command("/unknown", "robertao"), None);
    assert_eq!(parse_command(" /help", "robertao"), None);
    assert_eq!(parse_command("/helpme", "robertao"), None);
}

#[test]
fn help_has_its_answer() {
    assert_eq!(help_reply(), "@Canato disse que ia escrever, e ta ai ate hoje...");
}

#[test]
fn lend_always_refuses() {
    assert_eq!(lend_handler("/lend Me empresta? 10000 zenys").unwrap(), "Não...");
    assert_eq!(
        lend_handler("/lend").unwrap(),
        "Errou feio, errou rude! Exemplo de uso do comando:\nMe empresta? 10000 zenys"
    );
    assert_eq!(
        lend_handler("/lend me empresta? 10 zenys").unwrap(),
        "Errou feio, errou rude! Exemplo de uso do comando:\nMe empresta? 10000 zenys"
    );
}

#[test]
fn del_reads_the_second_field() {
    match plan("/del 5f1a00ff1009abcdef012345") {
        DelPlan::Delete(id) => assert_eq!(id.to_hex(), "5f1a00ff1009abcdef012345"),
        other => panic!("unexpected {:?}", other),
    }
    match plan("/del 5f1a00ff1009abcdef012345 extra words") {
        DelPlan::Delete(id) => assert_eq!(id.to_hex(), "5f1a00ff1009abcdef012345"),
        other => panic!("unexpected {:?}", other),
    }
    for msg in ["/del sanacagem", "/del  5f1a00ff1009abcdef012345", "/del "] {
        match plan(msg) {
            DelPlan::Reply(text) => assert_eq!(text, "Id invalido, ta de sanacagem?"),
            other => panic!("unexpected {:?}", other),
        }
    }
    assert_eq!(deleted_reply(), "Deletado!");
}

#[test]
fn add_reads_item_seller_and_mentions() {
    let msg = "/add 501 \"Vendi Sai Chorano\" @yurick @sousandrei";
    let entities = vec![
        Entity { offset: 0, length: 4, kind: EntityKind::Other },
        mention_at(msg, "@yurick"),
        Entity { offset: 0, length: 0, kind: EntityKind::TextMention { id: 42, first_name: "Ana".to_string() } },
        mention_at(msg, "@sousandrei"),
    ];
    let params = try_parse_add_params(msg, &entities).unwrap().unwrap();
    assert_eq!(params.item, 501);
    assert_eq!(params.seller_name, "Vendi Sai Chorano");
    let written: Vec<String> = params.users.iter().map(|u| u.to_string()).collect();
    assert_eq!(written, vec!["@yurick", "[Ana](tg://user?id=42)", "@sousandrei"]);
    let again = parse_add_params(msg, &entities).unwrap();
    assert_eq!(again.item, 501);
}

#[test]
fn add_with_bot_name_in_the_command() {
    let msg = "/add@robertao 4001 \"Loja da Ana\" @x";
    let params = try_parse_add_params(msg, &vec![mention_at(msg, "@x")]).unwrap().unwrap();
    assert_eq!(params.item, 4001);
    assert_eq!(params.seller_name, "Loja da Ana");
}

#[test]
fn add_refuses_typographic_quotes() {
    let msg = "/add 501 “Vendi” @yurick";
    let err = try_parse_add_params(msg, &Vec::new()).unwrap().unwrap_err();
    assert_eq!(err.message, SMART_QUOTES_REPLY);
    assert!(err.message.starts_with("Opa, to vendo que você tá usando umas aspas diferenciadas."));
}

#[test]
fn add_with_missing_parts_gets_the_usage() {
    for msg in ["/add", "/add 501", "/add 501 Vendi @yurick", "/add abc \"Loja\" @x"] {
        let err = try_parse_add_params(msg, &Vec::new()).unwrap().unwrap_err();
        assert_eq!(err.message, USAGE_REPLY, "{}", msg);
    }
    assert!(USAGE_REPLY.starts_with("Tá faltando coisa aí!"));
}

#[test]
fn add_with_too_large_item_reports_the_parse_error() {
    let msg = "/add 99999999999 \"Loja\" @x";
    let err = try_parse_add_params(msg, &Vec::new()).unwrap().unwrap_err();
    assert_eq!(err.message, "99999999999".parse::<i32>().unwrap_err().to_string());
}

#[test]
fn add_with_mention_outside_the_message_is_not_read() {
    let msg = "/add 501 \"Loja\" @x";
    let bad = Entity { offset: 10, length: 100, kind: EntityKind::Mention };
    assert!(!mentions_fit(msg, &vec![bad.clone()]));
    assert!(try_parse_add_params(msg, &vec![bad.clone()]).is_none());
    let negative = Entity { offset: -1, length: 2, kind: EntityKind::Mention };
    assert!(try_parse_add_params(msg, &vec![negative]).is_none());
    // Without a match, the entities are never read.
    assert!(try_parse_add_params("/add", &vec![bad]).unwrap().is_err());
}

#[test]
fn add_mention_inside_a_character_is_not_read() {
    let msg = "/add 501 \"Loja\" ç @x";
    let cut = Entity { offset: msg.find('ç').unwrap() as i64 + 1, length: 1, kind: EntityKind::Mention };
    assert!(!mentions_fit(msg, &vec![cut.clone()]));
    assert!(try_parse_add_params(msg, &vec![cut]).is_none());
}

#[test]
fn add_groups_are_read_directly() {
    let msg = "/add 7 \"Loja\" @x";
    let groups = vec![Some(msg.to_string()), Some("7".to_string()), Some("Loja".to_string())];
    let params = params_from_groups(msg, &vec![mention_at(msg, "@x")], &groups).unwrap();
    assert_eq!(params.item, 7);
    assert_eq!(params.seller_name, "Loja");
    assert_eq!(params.users.len(), 1);
}

fn params() -> AddParams {
    AddParams { item: 501, seller_name: "Vendi".to_string(), users: vec![UserMention::TagMention("@a".to_string())] }
}

#[test]
fn add_without_shop_is_answered() {
    match plan_sale(params(), &None, ObjectId { bytes: [1; 12] }) {
        AddPlan::Reply(text) => assert_eq!(text, "Não achei esta lojinha"),
        other => panic!("unexpected {:?}", other),
    }
}

#[test]
fn add_of_item_not_offered_is_answered() {
    let m = shop(2, "Vendi", vec![SellingItem { item_id: 1, amount: 1, price: 5 }]);
    match plan_sale(params(), &Some(m), ObjectId { bytes: [1; 12] }) {
        AddPlan::Reply(text) => assert_eq!(text, "Este vendedor não esta vendendo este item"),
        other => panic!("unexpected {:?}", other),
    }
}

#[test]
fn add_registers_at_the_shop_price() {
    let m = shop(
        2,
        "Vendi",
        vec![
            SellingItem { item_id: 501, amount: 1, price: 2500 },
            SellingItem { item_id: 501, amount: 1, price: 9999 },
        ],
    );
    match plan_sale(params(), &Some(m), ObjectId { bytes: [1; 12] }) {
        AddPlan::Register(sale) => {
            assert_eq!(sale._id, ObjectId { bytes: [1; 12] });
            assert_eq!(sale.item, 501);
            assert_eq!(sale.seller.id, ObjectId { bytes: [2; 12] });
            assert_eq!(sale.seller.name, "Vendi");
            assert_eq!(sale.value, 2500);
            assert_eq!(sale.killcount, 0);
            assert_eq!(sale.users.len(), 1);
        },
        other => panic!("unexpected {:?}", other),
    }
    assert_eq!(
        confirmation("Poção Vermelha", "Vendi"),
        "Show, registrei aqui o item Poção Vermelha sendo vendido por Vendi"
    );
}

#[test]
fn listed_id_can_be_deleted() {
    let id = ObjectId { bytes: [0x0f, 0xa0, 0x11, 0x22, 0x33, 0x44, 0x55, 0x66, 0x77, 0x88, 0x99, 0xaa] };
    for command in ["/del", "/del@robertao"] {
        let msg = format!("{} {}", command, id.to_hex());
        match plan(&msg) {
            DelPlan::Delete(found) => assert_eq!(found, id),
            other => panic!("unexpected {:?}", other),
        }
    }
}

#[test]
fn lend_answer_follows_the_match() {
    assert_eq!(answer(Err("regex parse error".to_string())).unwrap_err().message, "regex parse error");
    assert_eq!(
        answer(Ok(None)).unwrap(),
        "Errou feio, errou rude! Exemplo de uso do comando:\nMe empresta? 10000 zenys"
    );
    assert_eq!(answer(Ok(Some(vec![Some("Me empresta? 1 zenys".to_string())]))).unwrap(), "Não...");
}

#[test]
fn add_outcome_follows_the_match() {
    let msg = "/add 12 \"Loja\"";
    assert_eq!(
        params_from_outcome(msg, &Vec::new(), Err("regex parse error".to_string())).unwrap_err().message,
        "regex parse error"
    );
    assert_eq!(params_from_outcome(msg, &Vec::new(), Ok(None)).unwrap_err().message, USAGE_REPLY);
    let groups = vec![None, Some("12".to_string()), Some("Loja".to_string())];
    let params = params_from_outcome(msg, &Vec::new(), Ok(Some(groups))).unwrap();
    assert_eq!((params.item, params.seller_name.as_str(), params.users.len()), (12, "Loja", 0));
    let groups = vec![None, Some("-".to_string()), Some("Loja".to_string())];
    let err = params_from_outcome(msg, &Vec::new(), Ok(Some(groups))).unwrap_err();
    assert_eq!(err.message, "-".parse::<i32>().unwrap_err().to_string());
}
