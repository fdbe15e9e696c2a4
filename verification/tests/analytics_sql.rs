use paycore::analytics::{
    get_table_engine, Aggregate, AnalyticsCollection, ClickhouseClient, ClickhouseConfig,
    ClickhouseError, Column, QueryBuildError, SortOrder, SqlTimestamp, TableEngine, ToSql, Window,
};

fn sign_engine() -> TableEngine {
    TableEngine::CollapsingMergeTree {
        sign: "sign_flag".to_string(),
    }
}

fn col(name: &str) -> Column {
    Column {
        name: name.to_string(),
    }
}

#[test]
fn count_compiles_per_engine() {
    let count: Aggregate<Column> = Aggregate::Count {
        field: None,
        alias: None,
    };
    assert_eq!(count.to_sql(&sign_engine()).unwrap(), "sum(sign_flag)");
    assert_eq!(count.to_sql(&TableEngine::BasicTree).unwrap(), "count(*)");

    let aliased: Aggregate<Column> = Aggregate::Count {
        field: None,
        alias: Some("total".to_string()),
    };
    assert_eq!(
        aliased.to_sql(&TableEngine::BasicTree).unwrap(),
        "count(*) as total"
    );
}

#[test]
fn sum_multiplies_by_sign_on_collapsing_engine() {
    let sum = Aggregate::Sum {
        field: col("amount"),
        alias: None,
    };
    assert_eq!(sum.to_sql(&sign_engine()).unwrap(), "sum(sign_flag * amount)");
    assert_eq!(sum.to_sql(&TableEngine::BasicTree).unwrap(), "sum(amount)");

    let aliased = Aggregate::Sum {
        field: col("amount"),
        alias: Some("volume".to_string()),
    };
    assert_eq!(
        aliased.to_sql(&sign_engine()).unwrap(),
        "sum(sign_flag * amount) as volume"
    );
}

#[test]
fn percentile_compiles_with_default_and_explicit_parameter() {
    let median = Aggregate::Percentile {
        field: col("latency"),
        alias: None,
        percentile: None,
    };
    assert_eq!(
        median.to_sql(&TableEngine::BasicTree).unwrap(),
        "quantilesExact(0.50)(latency)[1]"
    );

    let p90 = Aggregate::Percentile {
        field: col("latency"),
        alias: None,
        percentile: Some(90),
    };
    assert_eq!(
        p90.to_sql(&TableEngine::BasicTree).unwrap(),
        "quantilesExact(0.90)(latency)[1]"
    );

    let p5 = Aggregate::Percentile {
        field: col("latency"),
        alias: Some("p".to_string()),
        percentile: Some(5),
    };
    assert_eq!(
        p5.to_sql(&TableEngine::BasicTree).unwrap(),
        "quantilesExact(0.5)(latency)[1] as p"
    );
}

#[test]
fn min_max_distinct_count() {
    let min = Aggregate::Min {
        field: col("amount"),
        alias: Some("lo".to_string()),
    };
    assert_eq!(min.to_sql(&sign_engine()).unwrap(), "min(amount) as lo");

    let max = Aggregate::Max {
        field: col("amount"),
        alias: None,
    };
    assert_eq!(max.to_sql(&sign_engine()).unwrap(), "max(amount)");

    let distinct = Aggregate::DistinctCount {
        field: col("customer_id"),
        alias: None,
    };
    assert_eq!(
        distinct.to_sql(&TableEngine::BasicTree).unwrap(),
        "count(distinct customer_id)"
    );
}

#[test]
fn invalid_field_reference_names_the_failing_aggregate() {
    let bad = Aggregate::Sum {
        field: col("bad column"),
        alias: None,
    };
    let err: QueryBuildError = bad.to_sql(&TableEngine::BasicTree).unwrap_err();
    assert_eq!(err.message, "invalid field reference");
    assert_eq!(err.context.as_deref(), Some("Failed to sum aggregate"));

    let bad = Aggregate::Min {
        field: col(""),
        alias: None,
    };
    let err = bad.to_sql(&TableEngine::BasicTree).unwrap_err();
    assert_eq!(err.context.as_deref(), Some("Failed to min aggregate"));

    let bad = Aggregate::DistinctCount {
        field: col("a;b"),
        alias: None,
    };
    let err = bad.to_sql(&TableEngine::BasicTree).unwrap_err();
    assert_eq!(err.context.as_deref(), Some("Failed to distinct count aggregate"));

    let ok = col("a.b_c9").to_sql(&TableEngine::BasicTree).unwrap();
    assert_eq!(ok, "a.b_c9");
}

#[test]
fn window_sum_with_partition_order_and_alias() {
    let w = Window::Sum {
        field: col("amount"),
        partition_by: Some("merchant_id".to_string()),
        order_by: Some(("created_at".to_string(), SortOrder::Ascending)),
        alias: Some("running".to_string()),
    };
    assert_eq!(
        w.to_sql(&TableEngine::BasicTree).unwrap(),
        "sum(amount) over (partition by merchant_id order by created_at asc) as running"
    );

    let bare = Window::Sum {
        field: col("amount"),
        partition_by: None,
        order_by: None,
        alias: None,
    };
    assert_eq!(bare.to_sql(&TableEngine::BasicTree).unwrap(), "sum(amount) over ()");

    let bad = Window::Sum {
        field: col("no spaces"),
        partition_by: None,
        order_by: None,
        alias: None,
    };
    let err = bad.to_sql(&TableEngine::BasicTree).unwrap_err();
    assert_eq!(err.context.as_deref(), Some("Failed to sum window"));
}

#[test]
fn row_number_window() {
    let w: Window<Column> = Window::RowNumber {
        field: None,
        partition_by: None,
        order_by: Some(("created_at".to_string(), SortOrder::Descending)),
        alias: Some("rn".to_string()),
    };
    assert_eq!(
        w.to_sql(&TableEngine::BasicTree).unwrap(),
        "row_number() over ( order by created_at desc) as rn"
    );
}

#[test]
fn timestamp_compiles_to_unix_seconds() {
    let t = SqlTimestamp {
        unix_seconds: 1700000000,
    };
    assert_eq!(t.to_sql(&TableEngine::BasicTree).unwrap(), "1700000000");
    let epoch = SqlTimestamp { unix_seconds: 0 };
    assert_eq!(epoch.to_sql(&TableEngine::BasicTree).unwrap(), "0");
    let before = SqlTimestamp { unix_seconds: -3600 };
    assert_eq!(before.to_sql(&TableEngine::BasicTree).unwrap(), "-3600");
}

#[test]
fn table_names_and_engines() {
    let engine = TableEngine::BasicTree;
    assert_eq!(
        AnalyticsCollection::Payment.to_sql(&engine).unwrap(),
        "payment_attempts"
    );
    assert_eq!(
        AnalyticsCollection::PaymentIntentSessionized.to_sql(&engine).unwrap(),
        "sessionizer_payment_intents"
    );
    assert_eq!(AnalyticsCollection::SdkEvents.to_sql(&engine).unwrap(), "sdk_events_audit");
    assert_eq!(
        AnalyticsCollection::ActivePaymentsAnalytics.to_sql(&engine).unwrap(),
        "active_payments"
    );

    assert_eq!(
        get_table_engine(AnalyticsCollection::Payment),
        TableEngine::CollapsingMergeTree {
            sign: "sign_flag".to_string()
        }
    );
    assert_eq!(
        get_table_engine(AnalyticsCollection::Dispute),
        TableEngine::CollapsingMergeTree {
            sign: "sign_flag".to_string()
        }
    );
    assert_eq!(get_table_engine(AnalyticsCollection::SdkEvents), TableEngine::BasicTree);
    assert_eq!(
        get_table_engine(AnalyticsCollection::OutgoingWebhookEvent),
        TableEngine::BasicTree
    );
}

#[test]
fn warehouse_client_pure_parts() {
    let config = ClickhouseConfig::default();
    assert_eq!(config.username, "default");
    assert_eq!(config.password, None);
    assert_eq!(config.host, "http://localhost:8123");

    let client = ClickhouseClient {
        config,
        database: "analytics".to_string(),
    };
    let params = client.query_params();
    assert_eq!(params.date_time_output_format, "iso");
    assert_eq!(params.output_format_json_quote_64bit_integers, 0);
    assert_eq!(params.database, "analytics");

    assert_eq!(client.request_body("SELECT 1"), "SELECT 1\nFORMAT JSON");
    assert_eq!(client.health_check_query(), "SELECT 1");

    assert_eq!(
        client.classify_response(200, "{\"data\": []}".to_string()),
        Ok("{\"data\": []}".to_string())
    );
    assert_eq!(
        client.classify_response(500, "boom".to_string()),
        Err(ClickhouseError::ResponseNotOK("boom".to_string()))
    );
}
