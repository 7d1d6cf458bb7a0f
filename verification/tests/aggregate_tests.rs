use pool_reader::aggregate::{aggregate, combine, find_best_pool_by_tvl, select};
use pool_reader::config::Config;
use pool_reader::pool::{FetchError, Pool, Reply, Selection, TokenMints};
use pool_reader::record::{identifier_field, amount_field};
use pool_reader::reply::decode_reply;
use pool_reader::response::{
    error_response_at, format_error_response, reject, reject_at, respond, respond_at, Response,
};

fn pool(id: &str, tvl: f64) -> Pool {
    Pool { pool_id: id.to_string(), tvl: tvl.to_bits(), price: 1.0f64.to_bits() }
}

fn mints() -> TokenMints {
    TokenMints { token_mint_a: "X".to_string(), token_mint_b: "Y".to_string() }
}

fn ok(body: &str) -> Reply {
    Reply::Answered { status: 200, body: body.as_bytes().to_vec() }
}

const RAYDIUM: &str = r#"{"data":{"data":[{"id":"R1","tvl":100,"price":1},{"id":"R2","tvl":90,"price":1}]}}"#;
const ORCA: &str = r#"{"data":[{"address":"O1","tvlUsdc":"250","price":"1","tokenA":{"address":"Y"},"tokenB":{"address":"X"}}]}"#;
const METEORA: &str = r#"{"groups":[{"pairs":[{"address":"M1","liquidity":"50","current_price":1}]}]}"#;

#[test]
fn selects_highest_tvl() {
    let pools = vec![pool("A", 100.0), pool("B", 250.0), pool("C", 50.0)];
    assert_eq!(find_best_pool_by_tvl(pools), Some(pool("B", 250.0)));
}

#[test]
fn empty_collection_has_no_pool() {
    assert_eq!(find_best_pool_by_tvl(vec![]), None);
    assert_eq!(select(Ok(vec![]), Ok(vec![]), Ok(vec![])), Selection::NoPoolFound);
}

#[test]
fn single_pool_is_selected() {
    assert_eq!(find_best_pool_by_tvl(vec![pool("A", -5.0)]), Some(pool("A", -5.0)));
    assert_eq!(find_best_pool_by_tvl(vec![pool("A", f64::NAN)]), Some(pool("A", f64::NAN)));
}

#[test]
fn last_of_equal_maxima_is_selected() {
    let pools = vec![pool("A", 250.0), pool("B", 100.0), pool("C", 250.0), pool("D", 1.0)];
    assert_eq!(find_best_pool_by_tvl(pools), Some(pool("C", 250.0)));
    let zeros = vec![pool("P", 0.0), pool("N", -0.0)];
    assert_eq!(find_best_pool_by_tvl(zeros), Some(pool("N", -0.0)));
}

#[test]
fn selection_agrees_with_max_by_on_doubles() {
    let values = [3.0, f64::NAN, 1.0, 7.5, 7.5, f64::NAN, -2.0, f64::INFINITY, 0.0];
    for start in 0..values.len() {
        for end in start..=values.len() {
            let pools: Vec<Pool> = values[start..end]
                .iter()
                .enumerate()
                .map(|(i, v)| pool(&format!("P{}", i), *v))
                .collect();
            let expected = pools.clone().into_iter().max_by(|a, b| {
                f64::from_bits(a.tvl)
                    .partial_cmp(&f64::from_bits(b.tvl))
                    .unwrap_or(std::cmp::Ordering::Equal)
            });
            assert_eq!(find_best_pool_by_tvl(pools), expected);
        }
    }
}

#[test]
fn combine_keeps_dispatch_order() {
    let all = combine(
        Ok(vec![pool("R1", 1.0), pool("R2", 2.0)]),
        Ok(vec![pool("O1", 3.0)]),
        Ok(vec![pool("M1", 4.0), pool("M2", 5.0)]),
    );
    let ids: Vec<&str> = all.iter().map(|p| p.pool_id.as_str()).collect();
    assert_eq!(ids, vec!["R1", "R2", "O1", "M1", "M2"]);
}

#[test]
fn failed_providers_add_nothing() {
    let r = || Ok(vec![pool("R1", 100.0)]);
    let o = || Ok(vec![pool("O1", 250.0)]);
    let m = || Ok(vec![pool("M1", 50.0)]);
    let e = || Err(FetchError::Transport);
    assert_eq!(select(r(), o(), m()), Selection::Chosen(pool("O1", 250.0)));
    assert_eq!(select(e(), o(), m()), Selection::Chosen(pool("O1", 250.0)));
    assert_eq!(select(r(), e(), m()), Selection::Chosen(pool("R1", 100.0)));
    assert_eq!(select(r(), o(), e()), Selection::Chosen(pool("O1", 250.0)));
    assert_eq!(select(e(), e(), m()), Selection::Chosen(pool("M1", 50.0)));
    assert_eq!(select(e(), o(), e()), Selection::Chosen(pool("O1", 250.0)));
    assert_eq!(select(r(), e(), e()), Selection::Chosen(pool("R1", 100.0)));
    assert_eq!(select(e(), e(), e()), Selection::NoPoolFound);
    assert_eq!(
        select(Err(FetchError::Decode), Err(FetchError::HttpStatus(500)), Ok(vec![])),
        Selection::NoPoolFound
    );
}

#[test]
fn aggregate_picks_across_providers() {
    let chosen = aggregate(&mints(), &ok(RAYDIUM), &ok(ORCA), &ok(METEORA));
    assert_eq!(chosen, Selection::Chosen(pool("O1", 250.0)));
}

#[test]
fn aggregate_survives_any_failures() {
    let down = Reply::Unreachable;
    let broken = ok("<html>");
    let refused = Reply::Answered { status: 429, body: ORCA.as_bytes().to_vec() };
    assert_eq!(
        aggregate(&mints(), &ok(RAYDIUM), &refused, &ok(METEORA)),
        Selection::Chosen(pool("R1", 100.0))
    );
    assert_eq!(
        aggregate(&mints(), &down, &broken, &ok(METEORA)),
        Selection::Chosen(pool("M1", 50.0))
    );
    assert_eq!(aggregate(&mints(), &down, &broken, &refused), Selection::NoPoolFound);
    assert_eq!(aggregate(&mints(), &ok("{}"), &ok("{}"), &ok("{}")), Selection::NoPoolFound);
}

#[test]
fn aggregate_filters_orca_by_the_pair() {
    let other = TokenMints { token_mint_a: "X".to_string(), token_mint_b: "Z".to_string() };
    assert_eq!(
        aggregate(&other, &Reply::Unreachable, &ok(ORCA), &Reply::Unreachable),
        Selection::NoPoolFound
    );
}

#[test]
fn error_response_echoes_its_inputs() {
    let report = error_response_at("boom", "X", "Y", "2024-01-01T00:00:00+00:00".to_string());
    assert_eq!(report.error, "boom");
    assert_eq!(report.tokens, mints());
    assert_eq!(report.timestamp, "2024-01-01T00:00:00+00:00");
}

#[test]
fn error_response_carries_a_utc_timestamp() {
    let before = chrono::Utc::now();
    let report = format_error_response("No pools found", "X", "Y");
    let after = chrono::Utc::now();
    let members = report.as_object().expect("an object");
    assert_eq!(members.len(), 3);
    assert_eq!(report["error"].as_str(), Some("No pools found"));
    assert_eq!(report["tokens"].as_object().map(|t| t.len()), Some(2));
    assert_eq!(report["tokens"]["token_mint_a"].as_str(), Some("X"));
    assert_eq!(report["tokens"]["token_mint_b"].as_str(), Some("Y"));
    let text = report["timestamp"].as_str().expect("a string");
    let stamp = chrono::DateTime::parse_from_rfc3339(text).expect("date-time text");
    assert_eq!(stamp.offset().local_minus_utc(), 0);
    assert!(before <= stamp && stamp <= after);
}

#[test]
fn error_report_has_a_fixed_json_form() {
    let report = error_response_at("boom", "X", "Y", "2024-01-01T00:00:00+00:00".to_string());
    let expected: serde_json::Value = serde_json::from_str(
        r#"{"error":"boom","tokens":{"token_mint_a":"X","token_mint_b":"Y"},
            "timestamp":"2024-01-01T00:00:00+00:00"}"#,
    )
    .expect("well-formed");
    assert_eq!(report.to_json(), expected);
    assert_eq!(
        serde_json::to_string(&mints().to_json()).ok(),
        Some(r#"{"token_mint_a":"X","token_mint_b":"Y"}"#.to_string())
    );
}

#[test]
fn pool_fields_survive_json_text() {
    let before = Pool {
        pool_id: "58oQChx4yWmvKdwLLZzBi4ChoCc2fqCUWBkwMihLYQo2".to_string(),
        tvl: 12345.67f64.to_bits(),
        price: 0.000123456789f64.to_bits(),
    };
    let mut members = serde_json::Map::new();
    members.insert("pool_id".to_string(), serde_json::Value::from(before.pool_id.clone()));
    members.insert("tvl".to_string(), serde_json::Value::from(f64::from_bits(before.tvl)));
    members.insert("price".to_string(), serde_json::Value::from(f64::from_bits(before.price)));
    let text = serde_json::to_string(&serde_json::Value::Object(members)).expect("serializes");
    let reply = Reply::Answered { status: 200, body: text.into_bytes() };
    let parsed = decode_reply(&reply).expect("parses");
    let back = Pool {
        pool_id: identifier_field(&parsed, "pool_id"),
        tvl: amount_field(&parsed, "tvl"),
        price: amount_field(&parsed, "price"),
    };
    assert_eq!(back, before);
}

#[test]
fn responses_follow_the_selection() {
    let found = respond_at(Selection::Chosen(pool("A", 1.0)), &mints(), "t".to_string());
    assert_eq!(found, Response::Found(pool("A", 1.0)));
    let failed = respond_at(Selection::NoPoolFound, &mints(), "t".to_string());
    assert_eq!(failed, Response::Failed(error_response_at("No pools found", "X", "Y", "t".to_string())));
    let rejected = reject_at(&mints(), "t".to_string());
    assert_eq!(rejected, error_response_at("Invalid token mint", "X", "Y", "t".to_string()));
}

#[test]
fn responses_at_the_current_time_echo_the_pair() {
    assert_eq!(respond(Selection::Chosen(pool("A", 1.0)), &mints()), Response::Found(pool("A", 1.0)));
    match respond(Selection::NoPoolFound, &mints()) {
        Response::Failed(report) => {
            assert_eq!(report.error, "No pools found");
            assert_eq!(report.tokens, mints());
            assert!(chrono::DateTime::parse_from_rfc3339(&report.timestamp).is_ok());
        }
        Response::Found(_) => panic!("no pool was selected"),
    }
    let rejected = reject(&mints());
    assert_eq!(rejected.error, "Invalid token mint");
    assert_eq!(rejected.tokens, mints());
    assert!(chrono::DateTime::parse_from_rfc3339(&rejected.timestamp).is_ok());
}

#[test]
fn default_configuration() {
    let config = Config::default();
    assert_eq!(config.server.host, "0.0.0.0");
    assert_eq!(config.server.port, 3000);
    assert_eq!(config.api.timeout, std::time::Duration::from_secs(10));
    assert_eq!(config.api.timeout_secs(), 10);
}

#[test]
fn configuration_can_be_cloned() {
    let config = Config::with_overrides(Some("localhost".to_string()), Some(8081), Some(42));
    let copy = config.clone();
    assert_eq!(copy.server.host, "localhost");
    assert_eq!(copy.server.port, 8081);
    assert_eq!(copy.api.timeout, config.api.timeout);
    assert_eq!(copy.api.timeout_secs(), 42);
}

#[test]
fn settings_replace_defaults() {
    let config = Config::from_settings(
        Some("127.0.0.1".to_string()),
        Some("8080".to_string()),
        Some("3".to_string()),
    );
    assert_eq!(config.server.host, "127.0.0.1");
    assert_eq!(config.server.port, 8080);
    assert_eq!(config.api.timeout_secs(), 3);
    let overridden = Config::with_overrides(None, Some(1), None);
    assert_eq!(overridden.server.host, "0.0.0.0");
    assert_eq!(overridden.server.port, 1);
    assert_eq!(overridden.api.timeout_secs(), 10);
}

fn port_for(text: &str) -> u16 {
    Config::from_settings(None, Some(text.to_string()), None).server.port
}

fn timeout_for(text: &str) -> std::time::Duration {
    Config::from_settings(None, None, Some(text.to_string())).api.timeout
}

#[test]
fn port_text_is_an_unsigned_decimal() {
    assert_eq!(port_for("8080"), 8080);
    assert_eq!(port_for("+8080"), 8080);
    assert_eq!(port_for("0008080"), 8080);
    assert_eq!(port_for("0"), 0);
    assert_eq!(port_for("65535"), 65535);
    assert_eq!(port_for("65536"), 3000);
    assert_eq!(port_for("70000"), 3000);
    assert_eq!(port_for(""), 3000);
    assert_eq!(port_for("+"), 3000);
    assert_eq!(port_for("++80"), 3000);
    assert_eq!(port_for("-80"), 3000);
    assert_eq!(port_for("-0"), 3000);
    assert_eq!(port_for(" 80"), 3000);
    assert_eq!(port_for("80 "), 3000);
    assert_eq!(port_for("8_0"), 3000);
    assert_eq!(port_for("0x50"), 3000);
    assert_eq!(port_for("80.0"), 3000);
    assert_eq!(port_for("\u{664}\u{662}"), 3000);
}

#[test]
fn timeout_text_is_an_unsigned_decimal_of_whole_seconds() {
    let secs = std::time::Duration::from_secs;
    assert_eq!(timeout_for("5"), secs(5));
    assert_eq!(timeout_for("+5"), secs(5));
    assert_eq!(timeout_for("0"), secs(0));
    assert_eq!(timeout_for("18446744073709551615"), secs(u64::MAX));
    assert_eq!(timeout_for("18446744073709551616"), secs(10));
    assert_eq!(timeout_for("1.5"), secs(10));
    assert_eq!(timeout_for("-1"), secs(10));
    assert_eq!(timeout_for(""), secs(10));
    assert_eq!(timeout_for("5").subsec_nanos(), 0);
    assert_eq!(Config::default().api.timeout.subsec_nanos(), 0);
    assert_eq!(Config::with_overrides(None, None, Some(7)).api.timeout, secs(7));
}

#[test]
fn a_bad_setting_leaves_only_its_own_field_at_the_default() {
    let config = Config::from_settings(Some("localhost".to_string()), None, Some("1.5".to_string()));
    assert_eq!(config.server.host, "localhost");
    assert_eq!(config.server.port, 3000);
    assert_eq!(config.api.timeout, std::time::Duration::from_secs(10));
    let other = Config::from_settings(
        Some("127.0.0.1".to_string()),
        Some("8080".to_string()),
        Some("5".to_string()),
    );
    assert_eq!(other.server.host, "127.0.0.1");
    assert_eq!(other.server.port, 8080);
    assert_eq!(other.api.timeout, std::time::Duration::from_secs(5));
}

#[test]
fn unreadable_settings_leave_defaults() {
    let config = Config::from_settings(None, Some("65536".to_string()), Some("-1".to_string()));
    assert_eq!(config.server.host, "0.0.0.0");
    assert_eq!(config.server.port, 3000);
    assert_eq!(config.api.timeout_secs(), 10);
    let other = Config::from_settings(None, Some("port".to_string()), Some("".to_string()));
    assert_eq!(other.server.port, 3000);
    assert_eq!(other.api.timeout_secs(), 10);
}
