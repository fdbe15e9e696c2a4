//! The analytics query builder: vendor-neutral aggregate and window
//! expressions compiled to warehouse SQL text, plus the warehouse client's
//! pure parts (request framing, response classification, table naming).
//!
//! The same expression tree compiles differently depending only on the table
//! engine: on a sign-bearing engine (soft deletes are compensating
//! negative-sign rows) `Count` becomes `sum(<sign>)` and `Sum` multiplies by
//! the sign column, so cancelled rows do not double-count; on a basic engine
//! they are the plain `count(*)` and `sum(...)`.

use vstd::prelude::*;

use crate::text::{spec_idec, spec_udec, i64_to_string, u8_to_string};

verus! {

/// The storage engine of a warehouse table: sign-bearing (cancellation rows
/// carry a negative sign in the named column) or plain.
#[derive(Clone, Debug, PartialEq, Eq)]
pub enum TableEngine {
    CollapsingMergeTree { sign: String },
    BasicTree,
}

/// Model of [`TableEngine`].
#[verifier::ext_equal]
pub enum TableEngineV {
    CollapsingMergeTree { sign: Seq<char> },
    BasicTree,
}

impl DeepView for TableEngine {
    type V = TableEngineV;

    open spec fn deep_view(&self) -> TableEngineV {
        match self {
            TableEngine::CollapsingMergeTree { sign } => TableEngineV::CollapsingMergeTree {
                sign: sign@,
            },
            TableEngine::BasicTree => TableEngineV::BasicTree,
        }
    }
}

/// An error produced while compiling an expression to SQL: the message of
/// the failing part, and the context a surrounding aggregate or window
/// attached, naming which construct failed.
#[derive(Clone, Debug, PartialEq, Eq)]
pub struct QueryBuildError {
    pub message: String,
    pub context: Option<String>,
}

/// Model of [`QueryBuildError`].
#[verifier::ext_equal]
pub struct QueryBuildErrorV {
    pub message: Seq<char>,
    pub context: Option<Seq<char>>,
}

impl DeepView for QueryBuildError {
    type V = QueryBuildErrorV;

    open spec fn deep_view(&self) -> QueryBuildErrorV {
        QueryBuildErrorV { message: self.message@, context: self.context.deep_view() }
    }
}

/// A value that compiles to a SQL fragment, possibly differently per table
/// engine. `spec_to_sql` is the mathematical statement of what each
/// implementation emits; `to_sql` must return exactly that.
pub trait ToSql {
    /// The SQL text this value compiles to, or the error that rejects it.
    spec fn spec_to_sql(&self, engine: &TableEngine) -> Result<Seq<char>, QueryBuildErrorV>;

    /// Compiles the value to SQL text.
    fn to_sql(&self, engine: &TableEngine) -> (r: Result<String, QueryBuildError>)
        ensures
            r matches Ok(s) ==> self.spec_to_sql(engine) == Ok::<Seq<char>, QueryBuildErrorV>(s@),
            r matches Err(e) ==> self.spec_to_sql(engine) == Err::<Seq<char>, QueryBuildErrorV>(
                e.deep_view(),
            ),
    ;
}

/// Whether `c` may appear in a column reference: ASCII letters, digits,
/// underscore, or the dot of a nested field path.
pub open spec fn spec_is_column_char(c: char) -> bool {
    (97 <= c as u32 <= 122) || (65 <= c as u32 <= 90) || (48 <= c as u32 <= 57) || c == '_' || c
        == '.'
}

/// Whether `s` is a well-formed column reference: non-empty and made of
/// column characters only.
pub open spec fn spec_valid_column_name(s: Seq<char>) -> bool {
    s.len() > 0 && forall|i: int| 0 <= i < s.len() ==> spec_is_column_char(#[trigger] s[i])
}

/// A reference to a table column (possibly a dotted nested-field path).
/// An ill-formed reference fails to compile; the failure propagates to the
/// aggregate or window naming itself.
#[derive(Clone, Debug, PartialEq, Eq)]
pub struct Column {
    pub name: String,
}

impl ToSql for Column {
    open spec fn spec_to_sql(&self, engine: &TableEngine) -> Result<Seq<char>, QueryBuildErrorV> {
        if spec_valid_column_name(self.name@) {
            Ok(self.name@)
        } else {
            Err(QueryBuildErrorV { message: "invalid field reference"@, context: None })
        }
    }

    fn to_sql(&self, engine: &TableEngine) -> (r: Result<String, QueryBuildError>) {
        let n = self.name.as_str().unicode_len();
        if n == 0 {
            return Err(
                QueryBuildError { message: "invalid field reference".to_owned(), context: None },
            );
        }
        let mut i: usize = 0;
        while i < n
            invariant
                n == self.name@.len(),
                0 <= i <= n,
                forall|j: int| 0 <= j < i ==> spec_is_column_char(#[trigger] self.name@[j]),
            decreases n - i,
        {
            let c = self.name.as_str().get_char(i);
            let u = c as u32;
            let ok = (97 <= u && u <= 122) || (65 <= u && u <= 90) || (48 <= u && u <= 57) || c
                == '_' || c == '.';
            if !ok {
                assert(!spec_is_column_char(self.name@[i as int]));
                return Err(
                    QueryBuildError {
                        message: "invalid field reference".to_owned(),
                        context: None,
                    },
                );
            }
            i = i + 1;
        }
        Ok(self.name.clone())
    }
}

/// A literal unix timestamp in seconds; it compiles to its decimal text.
#[derive(Clone, Copy, Debug, PartialEq, Eq)]
pub struct SqlTimestamp {
    pub unix_seconds: i64,
}

impl ToSql for SqlTimestamp {
    open spec fn spec_to_sql(&self, engine: &TableEngine) -> Result<Seq<char>, QueryBuildErrorV> {
        Ok(spec_idec(self.unix_seconds as int))
    }

    fn to_sql(&self, engine: &TableEngine) -> (r: Result<String, QueryBuildError>) {
        Ok(i64_to_string(self.unix_seconds))
    }
}

/// The ` as <alias>` suffix, empty when no alias was requested.
pub open spec fn spec_alias_suffix(alias: Option<Seq<char>>) -> Seq<char> {
    match alias {
        Some(a) => " as "@ + a,
        None => Seq::<char>::empty(),
    }
}

/// Appends the ` as <alias>` suffix to `s`.
fn append_alias(s: &mut String, alias: &Option<String>)
    ensures
        final(s)@ == old(s)@ + spec_alias_suffix(alias.deep_view()),
{
    match alias {
        Some(a) => {
            s.append(" as ");
            s.append(a.as_str());
            proof {
                assert(s@ =~= old(s)@ + spec_alias_suffix(alias.deep_view()));
            }
        },
        None => {
            proof {
                assert(s@ =~= old(s)@ + spec_alias_suffix(alias.deep_view()));
            }
        },
    }
}

/// A vendor-neutral aggregate expression over a field reference, with an
/// optional SQL alias.
#[derive(Clone, Debug, PartialEq, Eq)]
pub enum Aggregate<T> {
    Count { field: Option<T>, alias: Option<String> },
    Sum { field: T, alias: Option<String> },
    Min { field: T, alias: Option<String> },
    Max { field: T, alias: Option<String> },
    Percentile { field: T, alias: Option<String>, percentile: Option<u8> },
    DistinctCount { field: T, alias: Option<String> },
}

/// The decimal digits of the percentile parameter, defaulting to the median.
pub open spec fn spec_percentile_digits(p: Option<u8>) -> Seq<char> {
    match p {
        Some(v) => spec_udec(v as nat),
        None => "50"@,
    }
}

/// The SQL text an aggregate compiles to on the given engine, or the field's
/// error with a context naming the failing aggregate. `Count` and `Sum`
/// depend on the engine: a sign-bearing table counts and sums through its
/// sign column so cancellation rows net out.
pub open spec fn spec_aggregate_sql<T: ToSql>(agg: Aggregate<T>, engine: &TableEngine) -> Result<
    Seq<char>,
    QueryBuildErrorV,
> {
    match agg {
        Aggregate::Count { field, alias } => {
            let query = match engine.deep_view() {
                TableEngineV::CollapsingMergeTree { sign } => "sum("@ + sign + ")"@,
                TableEngineV::BasicTree => "count(*)"@,
            };
            Ok(query + spec_alias_suffix(alias.deep_view()))
        },
        Aggregate::Sum { field, alias } => match field.spec_to_sql(engine) {
            Err(e) => Err(
                QueryBuildErrorV { message: e.message, context: Some("Failed to sum aggregate"@) },
            ),
            Ok(f) => {
                let query = match engine.deep_view() {
                    TableEngineV::CollapsingMergeTree { sign } => "sum("@ + sign + " * "@ + f
                        + ")"@,
                    TableEngineV::BasicTree => "sum("@ + f + ")"@,
                };
                Ok(query + spec_alias_suffix(alias.deep_view()))
            },
        },
        Aggregate::Min { field, alias } => match field.spec_to_sql(engine) {
            Err(e) => Err(
                QueryBuildErrorV { message: e.message, context: Some("Failed to min aggregate"@) },
            ),
            Ok(f) => Ok("min("@ + f + ")"@ + spec_alias_suffix(alias.deep_view())),
        },
        Aggregate::Max { field, alias } => match field.spec_to_sql(engine) {
            Err(e) => Err(
                QueryBuildErrorV { message: e.message, context: Some("Failed to max aggregate"@) },
            ),
            Ok(f) => Ok("max("@ + f + ")"@ + spec_alias_suffix(alias.deep_view())),
        },
        Aggregate::Percentile { field, alias, percentile } => match field.spec_to_sql(engine) {
            Err(e) => Err(
                QueryBuildErrorV {
                    message: e.message,
                    context: Some("Failed to percentile aggregate"@),
                },
            ),
            Ok(f) => Ok(
                "quantilesExact(0."@ + spec_percentile_digits(percentile) + ")("@ + f + ")[1]"@
                    + spec_alias_suffix(alias.deep_view()),
            ),
        },
        Aggregate::DistinctCount { field, alias } => match field.spec_to_sql(engine) {
            Err(e) => Err(
                QueryBuildErrorV {
                    message: e.message,
                    context: Some("Failed to distinct count aggregate"@),
                },
            ),
            Ok(f) => Ok("count(distinct "@ + f + ")"@ + spec_alias_suffix(alias.deep_view())),
        },
    }
}

impl<T: ToSql> ToSql for Aggregate<T> {
    open spec fn spec_to_sql(&self, engine: &TableEngine) -> Result<Seq<char>, QueryBuildErrorV> {
        spec_aggregate_sql(*self, engine)
    }

    fn to_sql(&self, engine: &TableEngine) -> (r: Result<String, QueryBuildError>) {
        match self {
            Aggregate::Count { field: _, alias } => {
                let mut s = String::new();
                match engine {
                    TableEngine::CollapsingMergeTree { sign } => {
                        s.append("sum(");
                        s.append(sign.as_str());
                        s.append(")");
                    },
                    TableEngine::BasicTree => {
                        s.append("count(*)");
                    },
                }
                append_alias(&mut s, alias);
                proof {
                    assert(self.spec_to_sql(engine) matches Ok(v) && s@ =~= v);
                }
                Ok(s)
            },
            Aggregate::Sum { field, alias } => match field.to_sql(engine) {
                Err(e) => Err(
                    QueryBuildError {
                        message: e.message,
                        context: Some("Failed to sum aggregate".to_owned()),
                    },
                ),
                Ok(f) => {
                    let mut s = String::new();
                    match engine {
                        TableEngine::CollapsingMergeTree { sign } => {
                            s.append("sum(");
                            s.append(sign.as_str());
                            s.append(" * ");
                            s.append(f.as_str());
                            s.append(")");
                        },
                        TableEngine::BasicTree => {
                            s.append("sum(");
                            s.append(f.as_str());
                            s.append(")");
                        },
                    }
                    append_alias(&mut s, alias);
                    proof {
                        assert(self.spec_to_sql(engine) matches Ok(v) && s@ =~= v);
                    }
                    Ok(s)
                },
            },
            Aggregate::Min { field, alias } => match field.to_sql(engine) {
                Err(e) => Err(
                    QueryBuildError {
                        message: e.message,
                        context: Some("Failed to min aggregate".to_owned()),
                    },
                ),
                Ok(f) => {
                    let mut s = String::new();
                    s.append("min(");
                    s.append(f.as_str());
                    s.append(")");
                    append_alias(&mut s, alias);
                    proof {
                        assert(self.spec_to_sql(engine) matches Ok(v) && s@ =~= v);
                    }
                    Ok(s)
                },
            },
            Aggregate::Max { field, alias } => match field.to_sql(engine) {
                Err(e) => Err(
                    QueryBuildError {
                        message: e.message,
                        context: Some("Failed to max aggregate".to_owned()),
                    },
                ),
                Ok(f) => {
                    let mut s = String::new();
                    s.append("max(");
                    s.append(f.as_str());
                    s.append(")");
                    append_alias(&mut s, alias);
                    proof {
                        assert(self.spec_to_sql(engine) matches Ok(v) && s@ =~= v);
                    }
                    Ok(s)
                },
            },
            Aggregate::Percentile { field, alias, percentile } => match field.to_sql(engine) {
                Err(e) => Err(
                    QueryBuildError {
                        message: e.message,
                        context: Some("Failed to percentile aggregate".to_owned()),
                    },
                ),
                Ok(f) => {
                    let mut s = String::new();
                    s.append("quantilesExact(0.");
                    match percentile {
                        Some(p) => {
                            let digits = u8_to_string(*p);
                            s.append(digits.as_str());
                        },
                        None => {
                            s.append("50");
                        },
                    }
                    s.append(")(");
                    s.append(f.as_str());
                    s.append(")[1]");
                    append_alias(&mut s, alias);
                    proof {
                        assert(self.spec_to_sql(engine) matches Ok(v) && s@ =~= v);
                    }
                    Ok(s)
                },
            },
            Aggregate::DistinctCount { field, alias } => match field.to_sql(engine) {
                Err(e) => Err(
                    QueryBuildError {
                        message: e.message,
                        context: Some("Failed to distinct count aggregate".to_owned()),
                    },
                ),
                Ok(f) => {
                    let mut s = String::new();
                    s.append("count(distinct ");
                    s.append(f.as_str());
                    s.append(")");
                    append_alias(&mut s, alias);
                    proof {
                        assert(self.spec_to_sql(engine) matches Ok(v) && s@ =~= v);
                    }
                    Ok(s)
                },
            },
        }
    }
}

/// Sort direction of a window's `order by` clause.
#[derive(Clone, Copy, Debug, PartialEq, Eq)]
pub enum SortOrder {
    Ascending,
    Descending,
}

/// The SQL spelling of a sort direction.
pub open spec fn spec_sort_order_sql(o: SortOrder) -> Seq<char> {
    match o {
        SortOrder::Ascending => "asc"@,
        SortOrder::Descending => "desc"@,
    }
}

impl SortOrder {
    /// The SQL spelling of this sort direction.
    pub fn sql_name(&self) -> (r: &'static str)
        ensures
            r@ == spec_sort_order_sql(*self),
    {
        match self {
            SortOrder::Ascending => "asc",
            SortOrder::Descending => "desc",
        }
    }
}

/// A vendor-neutral window expression with optional partition, order, and
/// SQL alias.
#[derive(Clone, Debug, PartialEq, Eq)]
pub enum Window<T> {
    Sum {
        field: T,
        partition_by: Option<String>,
        order_by: Option<(String, SortOrder)>,
        alias: Option<String>,
    },
    RowNumber {
        field: Option<T>,
        partition_by: Option<String>,
        order_by: Option<(String, SortOrder)>,
        alias: Option<String>,
    },
}

/// The `partition by ...` clause, empty when absent.
pub open spec fn spec_partition_clause(p: Option<Seq<char>>) -> Seq<char> {
    match p {
        Some(col) => "partition by "@ + col,
        None => Seq::<char>::empty(),
    }
}

/// The ` order by <column> <direction>` clause, empty when absent.
pub open spec fn spec_order_clause(o: Option<(Seq<char>, SortOrder)>) -> Seq<char> {
    match o {
        Some((col, ord)) => " order by "@ + col + " "@ + spec_sort_order_sql(ord),
        None => Seq::<char>::empty(),
    }
}

/// Model of an `order_by` option.
pub open spec fn spec_order_by_view(o: Option<(String, SortOrder)>) -> Option<(Seq<char>, SortOrder)> {
    match o {
        Some((col, ord)) => Some((col@, ord)),
        None => None,
    }
}

/// The SQL text a window expression compiles to, or the field's error with a
/// context naming the failing window.
pub open spec fn spec_window_sql<T: ToSql>(w: Window<T>, engine: &TableEngine) -> Result<
    Seq<char>,
    QueryBuildErrorV,
> {
    match w {
        Window::Sum { field, partition_by, order_by, alias } => match field.spec_to_sql(engine) {
            Err(e) => Err(
                QueryBuildErrorV { message: e.message, context: Some("Failed to sum window"@) },
            ),
            Ok(f) => Ok(
                "sum("@ + f + ") over ("@ + spec_partition_clause(partition_by.deep_view())
                    + spec_order_clause(spec_order_by_view(order_by)) + ")"@ + spec_alias_suffix(
                    alias.deep_view(),
                ),
            ),
        },
        Window::RowNumber { field, partition_by, order_by, alias } => Ok(
            "row_number() over ("@ + spec_partition_clause(partition_by.deep_view())
                + spec_order_clause(spec_order_by_view(order_by)) + ")"@ + spec_alias_suffix(
                alias.deep_view(),
            ),
        ),
    }
}

/// Appends `partition by ...` and ` order by ...` clauses to `s`.
fn append_over_clauses(
    s: &mut String,
    partition_by: &Option<String>,
    order_by: &Option<(String, SortOrder)>,
)
    ensures
        final(s)@ == old(s)@ + spec_partition_clause(partition_by.deep_view()) + spec_order_clause(
            spec_order_by_view(*order_by),
        ),
{
    match partition_by {
        Some(p) => {
            s.append("partition by ");
            s.append(p.as_str());
        },
        None => {},
    }
    match order_by {
        Some((col, ord)) => {
            s.append(" order by ");
            s.append(col.as_str());
            s.append(" ");
            s.append(ord.sql_name());
        },
        None => {},
    }
    proof {
        assert(s@ =~= old(s)@ + spec_partition_clause(partition_by.deep_view())
            + spec_order_clause(spec_order_by_view(*order_by)));
    }
}

impl<T: ToSql> ToSql for Window<T> {
    open spec fn spec_to_sql(&self, engine: &TableEngine) -> Result<Seq<char>, QueryBuildErrorV> {
        spec_window_sql(*self, engine)
    }

    fn to_sql(&self, engine: &TableEngine) -> (r: Result<String, QueryBuildError>) {
        match self {
            Window::Sum { field, partition_by, order_by, alias } => match field.to_sql(engine) {
                Err(e) => Err(
                    QueryBuildError {
                        message: e.message,
                        context: Some("Failed to sum window".to_owned()),
                    },
                ),
                Ok(f) => {
                    let mut s = String::new();
                    s.append("sum(");
                    s.append(f.as_str());
                    s.append(") over (");
                    append_over_clauses(&mut s, partition_by, order_by);
                    s.append(")");
                    append_alias(&mut s, alias);
                    proof {
                        assert(self.spec_to_sql(engine) matches Ok(v) && s@ =~= v);
                    }
                    Ok(s)
                },
            },
            Window::RowNumber { field: _, partition_by, order_by, alias } => {
                let mut s = String::new();
                s.append("row_number() over (");
                append_over_clauses(&mut s, partition_by, order_by);
                s.append(")");
                append_alias(&mut s, alias);
                proof {
                    assert(self.spec_to_sql(engine) matches Ok(v) && s@ =~= v);
                }
                Ok(s)
            },
        }
    }
}

/// The logical warehouse tables analytics queries may target.
#[derive(Clone, Copy, Debug, PartialEq, Eq)]
pub enum AnalyticsCollection {
    Payment,
    PaymentSessionized,
    Refund,
    RefundSessionized,
    FraudCheck,
    SdkEvents,
    SdkEventsAnalytics,
    ApiEvents,
    ApiEventsAnalytics,
    PaymentIntent,
    PaymentIntentSessionized,
    ConnectorEvents,
    OutgoingWebhookEvent,
    Dispute,
    DisputeSessionized,
    ActivePaymentsAnalytics,
    Authentications,
    RoutingEvents,
}

/// The physical table name of each logical collection.
pub open spec fn spec_table_name(t: AnalyticsCollection) -> Seq<char> {
    match t {
        AnalyticsCollection::Payment => "payment_attempts"@,
        AnalyticsCollection::PaymentSessionized => "sessionizer_payment_attempts"@,
        AnalyticsCollection::Refund => "refunds"@,
        AnalyticsCollection::RefundSessionized => "sessionizer_refunds"@,
        AnalyticsCollection::FraudCheck => "fraud_check"@,
        AnalyticsCollection::SdkEvents => "sdk_events_audit"@,
        AnalyticsCollection::SdkEventsAnalytics => "sdk_events"@,
        AnalyticsCollection::ApiEvents => "api_events_audit"@,
        AnalyticsCollection::ApiEventsAnalytics => "api_events"@,
        AnalyticsCollection::PaymentIntent => "payment_intents"@,
        AnalyticsCollection::PaymentIntentSessionized => "sessionizer_payment_intents"@,
        AnalyticsCollection::ConnectorEvents => "connector_events_audit"@,
        AnalyticsCollection::OutgoingWebhookEvent => "outgoing_webhook_events_audit"@,
        AnalyticsCollection::Dispute => "dispute"@,
        AnalyticsCollection::DisputeSessionized => "sessionizer_dispute"@,
        AnalyticsCollection::ActivePaymentsAnalytics => "active_payments"@,
        AnalyticsCollection::Authentications => "authentications"@,
        AnalyticsCollection::RoutingEvents => "routing_events_audit"@,
    }
}

impl ToSql for AnalyticsCollection {
    open spec fn spec_to_sql(&self, engine: &TableEngine) -> Result<Seq<char>, QueryBuildErrorV> {
        Ok(spec_table_name(*self))
    }

    fn to_sql(&self, engine: &TableEngine) -> (r: Result<String, QueryBuildError>) {
        match self {
            AnalyticsCollection::Payment => Ok("payment_attempts".to_owned()),
            AnalyticsCollection::PaymentSessionized => Ok("sessionizer_payment_attempts".to_owned()),
            AnalyticsCollection::Refund => Ok("refunds".to_owned()),
            AnalyticsCollection::RefundSessionized => Ok("sessionizer_refunds".to_owned()),
            AnalyticsCollection::FraudCheck => Ok("fraud_check".to_owned()),
            AnalyticsCollection::SdkEvents => Ok("sdk_events_audit".to_owned()),
            AnalyticsCollection::SdkEventsAnalytics => Ok("sdk_events".to_owned()),
            AnalyticsCollection::ApiEvents => Ok("api_events_audit".to_owned()),
            AnalyticsCollection::ApiEventsAnalytics => Ok("api_events".to_owned()),
            AnalyticsCollection::PaymentIntent => Ok("payment_intents".to_owned()),
            AnalyticsCollection::PaymentIntentSessionized => Ok("sessionizer_payment_intents".to_owned()),
            AnalyticsCollection::ConnectorEvents => Ok("connector_events_audit".to_owned()),
            AnalyticsCollection::OutgoingWebhookEvent => Ok("outgoing_webhook_events_audit".to_owned()),
            AnalyticsCollection::Dispute => Ok("dispute".to_owned()),
            AnalyticsCollection::DisputeSessionized => Ok("sessionizer_dispute".to_owned()),
            AnalyticsCollection::ActivePaymentsAnalytics => Ok("active_payments".to_owned()),
            AnalyticsCollection::Authentications => Ok("authentications".to_owned()),
            AnalyticsCollection::RoutingEvents => Ok("routing_events_audit".to_owned()),
        }
    }
}

/// The table engine behind each logical collection: business tables are
/// sign-bearing (rows are soft-deleted through a compensating negative-sign
/// row in `sign_flag`), event audit tables are plain.
pub open spec fn spec_table_engine(t: AnalyticsCollection) -> TableEngineV {
    match t {
        AnalyticsCollection::Payment => TableEngineV::CollapsingMergeTree { sign: "sign_flag"@ },
        AnalyticsCollection::PaymentSessionized => TableEngineV::CollapsingMergeTree { sign: "sign_flag"@ },
        AnalyticsCollection::Refund => TableEngineV::CollapsingMergeTree { sign: "sign_flag"@ },
        AnalyticsCollection::RefundSessionized => TableEngineV::CollapsingMergeTree { sign: "sign_flag"@ },
        AnalyticsCollection::FraudCheck => TableEngineV::CollapsingMergeTree { sign: "sign_flag"@ },
        AnalyticsCollection::PaymentIntent => TableEngineV::CollapsingMergeTree { sign: "sign_flag"@ },
        AnalyticsCollection::PaymentIntentSessionized => TableEngineV::CollapsingMergeTree { sign: "sign_flag"@ },
        AnalyticsCollection::Authentications => TableEngineV::CollapsingMergeTree { sign: "sign_flag"@ },
        AnalyticsCollection::Dispute => TableEngineV::CollapsingMergeTree { sign: "sign_flag"@ },
        AnalyticsCollection::DisputeSessionized => TableEngineV::CollapsingMergeTree { sign: "sign_flag"@ },
        AnalyticsCollection::SdkEvents => TableEngineV::BasicTree,
        AnalyticsCollection::SdkEventsAnalytics => TableEngineV::BasicTree,
        AnalyticsCollection::ApiEvents => TableEngineV::BasicTree,
        AnalyticsCollection::ApiEventsAnalytics => TableEngineV::BasicTree,
        AnalyticsCollection::ConnectorEvents => TableEngineV::BasicTree,
        AnalyticsCollection::OutgoingWebhookEvent => TableEngineV::BasicTree,
        AnalyticsCollection::ActivePaymentsAnalytics => TableEngineV::BasicTree,
        AnalyticsCollection::RoutingEvents => TableEngineV::BasicTree,
    }
}

/// Selects the table engine for a logical collection.
pub fn get_table_engine(table: AnalyticsCollection) -> (r: TableEngine)
    ensures
        r.deep_view() == spec_table_engine(table),
{
    match table {
        AnalyticsCollection::Payment
        | AnalyticsCollection::PaymentSessionized
        | AnalyticsCollection::Refund
        | AnalyticsCollection::RefundSessionized
        | AnalyticsCollection::FraudCheck
        | AnalyticsCollection::PaymentIntent
        | AnalyticsCollection::PaymentIntentSessionized
        | AnalyticsCollection::Authentications
        | AnalyticsCollection::Dispute
        | AnalyticsCollection::DisputeSessionized => TableEngine::CollapsingMergeTree { sign: "sign_flag".to_owned() },
        AnalyticsCollection::SdkEvents
        | AnalyticsCollection::SdkEventsAnalytics
        | AnalyticsCollection::ApiEvents
        | AnalyticsCollection::ApiEventsAnalytics
        | AnalyticsCollection::ConnectorEvents
        | AnalyticsCollection::OutgoingWebhookEvent
        | AnalyticsCollection::ActivePaymentsAnalytics
        | AnalyticsCollection::RoutingEvents => TableEngine::BasicTree,
    }
}

/// An error of the warehouse client.
#[derive(Clone, Debug, PartialEq, Eq)]
pub enum ClickhouseError {
    /// The warehouse could not be reached.
    ConnectionError,
    /// The warehouse answered with a non-200 status; the response body text
    /// is carried verbatim.
    ResponseNotOK(String),
    /// The warehouse answer could not be read or decoded.
    ResponseError,
}

/// Model of [`ClickhouseError`].
#[verifier::ext_equal]
pub enum ClickhouseErrorV {
    ConnectionError,
    ResponseNotOK(Seq<char>),
    ResponseError,
}

impl DeepView for ClickhouseError {
    type V = ClickhouseErrorV;

    open spec fn deep_view(&self) -> ClickhouseErrorV {
        match self {
            ClickhouseError::ConnectionError => ClickhouseErrorV::ConnectionError,
            ClickhouseError::ResponseNotOK(t) => ClickhouseErrorV::ResponseNotOK(t@),
            ClickhouseError::ResponseError => ClickhouseErrorV::ResponseError,
        }
    }
}

/// Connection settings of the warehouse client.
#[derive(Clone, Debug, PartialEq, Eq)]
pub struct ClickhouseConfig {
    pub username: String,
    pub password: Option<String>,
    pub host: String,
}

impl Default for ClickhouseConfig {
    /// The local development defaults: user "default", no password, the
    /// standard local HTTP endpoint.
    fn default() -> (r: Self)
        ensures
            r.username@ == "default"@,
            r.password is None,
            r.host@ == "http://localhost:8123"@,
    {
        ClickhouseConfig {
            username: "default".to_owned(),
            password: None,
            host: "http://localhost:8123".to_owned(),
        }
    }
}

/// The fixed query parameters sent with every warehouse request.
#[derive(Clone, Debug, PartialEq, Eq)]
pub struct CkhQuery {
    pub date_time_output_format: String,
    pub output_format_json_quote_64bit_integers: u8,
    pub database: String,
}

/// The warehouse client: connection settings plus the database each query
/// runs against. The HTTP transport itself is an external collaborator; this
/// type owns only the pure parts — framing the request and classifying the
/// response.
#[derive(Clone, Debug, PartialEq, Eq)]
pub struct ClickhouseClient {
    pub config: ClickhouseConfig,
    pub database: String,
}

impl ClickhouseClient {
    /// The query parameters for this client: ISO datetime output, unquoted
    /// 64-bit integers, and this client's database.
    pub fn query_params(&self) -> (r: CkhQuery)
        ensures
            r.date_time_output_format@ == "iso"@,
            r.output_format_json_quote_64bit_integers == 0u8,
            r.database@ == self.database@,
    {
        CkhQuery {
            date_time_output_format: "iso".to_owned(),
            output_format_json_quote_64bit_integers: 0,
            database: self.database.clone(),
        }
    }

    /// The POST body for a query: the SQL text followed by the JSON format
    /// directive on its own line.
    pub fn request_body(&self, query: &str) -> (r: String)
        ensures
            r@ == query@ + "\nFORMAT JSON"@,
    {
        let mut s = String::new();
        s.append(query);
        s.append("\nFORMAT JSON");
        s
    }

    /// Classifies a warehouse HTTP answer: a 200 hands the body on for row
    /// decoding; anything else is a response error carrying the body text.
    pub fn classify_response(&self, http_status: u16, body: String) -> (r: Result<
        String,
        ClickhouseError,
    >)
        ensures
            http_status == 200 ==> (r matches Ok(b) && b@ == body@),
            http_status != 200 ==> (r matches Err(e) && e.deep_view()
                == ClickhouseErrorV::ResponseNotOK(body@)),
    {
        if http_status == 200 {
            Ok(body)
        } else {
            Err(ClickhouseError::ResponseNotOK(body))
        }
    }

    /// The probe query of the warehouse health check.
    pub fn health_check_query(&self) -> (r: &'static str)
        ensures
            r@ == "SELECT 1"@,
    {
        "SELECT 1"
    }
}

} // verus!
