//! The database side of the servers: the text of the queries sent to MySQL,
//! the rows made of the answers, the detection of errors among them, and the
//! typing of column values for JSON.  The connection and the sending of the
//! queries are the caller's.
use vstd::prelude::*;
use crate::json::JsonValue;
use crate::string_map::StringMap;
use crate::text::{
    all_digits,
    append_decimal,
    decimal,
    is_ascii_digit,
    lemma_decimal_digits,
    lemma_parse_decimal,
    unsigned_digits,
    join,
    join_spec,
    parse_bool,
    parse_bool_spec,
    parse_i32,
    parse_i32_spec,
    substring,
    views,
};

verus! {

/// One row of an answer: column name to value.
pub type Row = StringMap<String>;

/// What became of a query sent to the database.
pub enum QueryOutcome {
    /// No connection could be had from the pool.
    ConnectionRefused,
    /// The connection failed during the query.
    QueryFailed,
    /// The rows of the answer, each a list of column values.
    Rows(Vec<Vec<String>>),
}

/// The queries of the servers go through this type.
pub struct Database {}

/// A call of `select`: the columns asked for, the table, the conditions, and
/// the names under which the columns of the answer are kept.
pub struct SelectQuery {
    pub select_params: Vec<String>,
    pub from_param: String,
    pub where_params: Vec<String>,
    pub waiting_params: Vec<String>,
}

impl SelectQuery {
    /// The text of the query.
    pub fn query_text(&self) -> (r: String)
        ensures
            r@ == select_query_spec(
                views(self.select_params@),
                self.from_param@,
                views(self.where_params@),
            ),
    {
        Database::select_query(&self.select_params, self.from_param.as_str(), &self.where_params)
    }
}

/// A list of strings made of literals.
pub fn string_list(items: &[&str]) -> (r: Vec<String>)
    ensures
        r@.len() == items@.len(),
        forall|i: int| 0 <= i < items@.len() ==> (#[trigger] r@[i])@ == items@[i]@,
{
    let mut r: Vec<String> = Vec::new();
    let n = items.len();
    let mut i: usize = 0;
    while i < n
        invariant
            i <= n,
            n == items@.len(),
            r@.len() == i,
            forall|k: int| 0 <= k < i ==> (#[trigger] r@[k])@ == items@[k]@,
        decreases n - i,
    {
        r.push(String::from_str(items[i]));
        i = i + 1;
    }
    r
}

/// The condition `column = n`.
pub fn condition_equals_number(column: &str, n: u64) -> (r: String)
    ensures
        r@ == equals_number(column@, n as nat),
{
    let mut r = String::from_str(column);
    r.append(" = ");
    append_decimal(&mut r, n);
    proof {
        reveal_strlit(" = ");
    }
    assert(r@ =~= equals_number(column@, n as nat));
    r
}

/// The text of `value` escaped for a quoted SQL string: each `'` doubled and
/// each `\\` doubled, every other character kept.
pub fn sql_escape(value: &str) -> (r: String)
    ensures
        r@ == sql_escaped(value@),
{
    let n = value.unicode_len();
    let mut r = String::new();
    let mut i: usize = 0;
    proof {
        reveal_strlit("''");
        reveal_strlit("\\\\");
        assert(value@.take(0) =~= Seq::<char>::empty());
    }
    while i < n
        invariant
            i <= n,
            n == value@.len(),
            r@ == sql_escaped(value@.take(i as int)),
            "''"@ == seq!['\'', '\''],
            "\\\\"@ == seq!['\\', '\\'],
        decreases n - i,
    {
        let c = value.get_char(i);
        proof {
            lemma_sql_escaped_concat(value@.take(i as int), seq![c]);
            assert(value@.take(i + 1) =~= value@.take(i as int) + seq![c]);
            assert(seq![c].drop_first() =~= Seq::<char>::empty());
            assert(sql_escaped(Seq::<char>::empty()) == Seq::<char>::empty());
            assert(sql_escaped(seq![c]) == escaped_char(c) + sql_escaped(seq![c].drop_first()));
            assert(escaped_char(c) + Seq::<char>::empty() =~= escaped_char(c));
        }
        if c == '\'' {
            r.append("''");
        } else if c == '\\' {
            r.append("\\\\");
        } else {
            let piece = substring(value, i, i + 1);
            assert(piece@ =~= seq![c]);
            r.append(piece.as_str());
        }
        i = i + 1;
    }
    assert(value@.take(n as int) =~= value@);
    r
}

/// The condition `column = 'value'`, the value escaped so that it is read
/// back as the literal text `value`.
pub fn condition_equals_text(column: &str, value: &str) -> (r: String)
    ensures
        r@ == equals_text(column@, value@),
{
    let mut r = String::from_str(column);
    r.append(" = '");
    let escaped = sql_escape(value);
    r.append(escaped.as_str());
    r.append("'");
    proof {
        reveal_strlit(" = '");
        reveal_strlit("'");
    }
    assert(r@ =~= equals_text(column@, value@));
    r
}

/// Whether the text denotes a JSON array, as `serde_json` reads it.
pub uninterp spec fn json_array_text(text: Seq<char>) -> bool;

/// Calls `serde_json::from_str::<serde_json::Value>` on `text` and tells
/// whether it gave `Ok(Value::Array(_))`.  The claim is only that the answer
/// depends on the text alone.
#[verifier::external_body]
fn parses_as_json_array(text: &str) -> (r: bool)
    ensures
        r == json_array_text(text@),
{
    matches!(serde_json::from_str::<serde_json::Value>(text), Ok(serde_json::Value::Array(_)))
}

/// The text of `SELECT`: the columns (all of them when none is named), the
/// table, and the conditions joined with `AND`.
pub open spec fn select_query_spec(
    select_params: Seq<Seq<char>>,
    from_param: Seq<char>,
    where_params: Seq<Seq<char>>,
) -> Seq<char> {
    let columns = if select_params.len() == 0 {
        "*"@
    } else {
        join_spec(select_params, ", "@)
    };
    let conditions = if where_params.len() == 0 {
        seq![]
    } else {
        " WHERE "@ + join_spec(where_params, " AND "@)
    };
    "SELECT "@ + columns + " FROM "@ + from_param + conditions
}

/// The row made of the column values `values`: the i-th value under the i-th
/// name of `names`, values beyond the names being dropped; a name given twice
/// keeps its last value.
pub open spec fn row_spec(names: Seq<Seq<char>>, values: Seq<Seq<char>>, k: nat) -> Map<
    Seq<char>,
    Seq<char>,
>
    decreases k,
{
    if k == 0 {
        Map::empty()
    } else {
        row_spec(names, values, (k - 1) as nat).insert(names[k - 1], values[k - 1])
    }
}

/// The number of columns that a row keeps.
pub open spec fn row_width(names: Seq<Seq<char>>, values: Seq<Seq<char>>) -> nat {
    if names.len() < values.len() {
        names.len()
    } else {
        values.len()
    }
}

/// The views of the values of a row.
pub open spec fn row_view(r: Row) -> Map<Seq<char>, Seq<char>> {
    r@.map_values(|v: String| v@)
}

/// The message of the error row given when no connection could be had.
pub open spec fn connection_refused_message() -> Seq<char> {
    "Cannot connect to the Database, connection refused"@
}

/// The message of the error row given when the query failed.
pub open spec fn query_failed_message() -> Seq<char> {
    "Connection aborted during the query"@
}

/// The rows are the single error row `{"error_message": message}`.
pub open spec fn is_error_answer(rows: Seq<Row>, message: Seq<char>) -> bool {
    rows.len() == 1 && row_view(rows[0]) == Map::<Seq<char>, Seq<char>>::empty().insert(
        "error_message"@,
        message,
    )
}

/// The first error message among the rows: the value of `error_message` in
/// the first row that has that column.
pub open spec fn first_error(rows: Seq<Row>) -> Option<Seq<char>>
    decreases rows.len(),
{
    if rows.len() == 0 {
        None
    } else if rows[0]@.dom().contains("error_message"@) {
        Some(rows[0]@["error_message"@]@)
    } else {
        first_error(rows.drop_first())
    }
}

/// How a column value is typed in JSON: an `i32` number, else a boolean, else
/// a JSON array, else a string.
pub open spec fn typed_as(j: JsonValue, v: Seq<char>) -> bool {
    match parse_i32_spec(v) {
        Some(n) => j == JsonValue::Int(n as i64),
        None => match parse_bool_spec(v) {
            Some(b) => j == JsonValue::Bool(b),
            None => if json_array_text(v) {
                j matches JsonValue::ArrayText(t) && t@ == v
            } else {
                j matches JsonValue::Text(t) && t@ == v
            },
        },
    }
}

/// The text of a condition `NAME = value` on a number.
pub open spec fn equals_number(column: Seq<char>, n: nat) -> Seq<char> {
    column + seq![' ', '=', ' '] + decimal(n)
}

/// The text of a condition `NAME = 'value'` on a string, the value escaped.
pub open spec fn equals_text(column: Seq<char>, value: Seq<char>) -> Seq<char> {
    column + seq![' ', '=', ' ', '\''] + sql_escaped(value) + seq!['\'']
}

/// How one character is written inside a quoted SQL string.
pub open spec fn escaped_char(c: char) -> Seq<char> {
    if c == '\'' {
        seq!['\'', '\'']
    } else if c == '\\' {
        seq!['\\', '\\']
    } else {
        seq![c]
    }
}

/// A text written inside a quoted SQL string: `'` and `\\` doubled.
pub open spec fn sql_escaped(s: Seq<char>) -> Seq<char>
    decreases s.len(),
{
    if s.len() == 0 {
        seq![]
    } else {
        escaped_char(s[0]) + sql_escaped(s.drop_first())
    }
}

/// How MySQL reads the rest of a quoted string literal after its opening
/// quote: `''`, `\'` and `\\` each give one character, a lone `'` ends the
/// literal.  The result is the text read and the index of the closing quote;
/// `None` when no closing quote comes or another backslash escape (which
/// this reading does not cover) comes first.
pub open spec fn read_literal(t: Seq<char>) -> Option<(Seq<char>, int)>
    decreases t.len(),
{
    if t.len() == 0 {
        None
    } else if t.len() >= 2 && ((t[0] == '\'' && t[1] == '\'') || (t[0] == '\\' && (t[1] == '\\'
        || t[1] == '\''))) {
        match read_literal(t.skip(2)) {
            Some((v, k)) => Some((seq![t[1]] + v, k + 2)),
            None => None,
        }
    } else if t[0] == '\'' {
        Some((seq![], 0))
    } else if t[0] == '\\' {
        None
    } else {
        match read_literal(t.drop_first()) {
            Some((v, k)) => Some((seq![t[0]] + v, k + 1)),
            None => None,
        }
    }
}

/// Escaping distributes over concatenation.
proof fn lemma_sql_escaped_concat(a: Seq<char>, b: Seq<char>)
    ensures
        sql_escaped(a + b) == sql_escaped(a) + sql_escaped(b),
    decreases a.len(),
{
    if a.len() == 0 {
        assert(a + b =~= b);
    } else {
        lemma_sql_escaped_concat(a.drop_first(), b);
        assert((a + b).drop_first() =~= a.drop_first() + b);
        assert((a + b)[0] == a[0]);
    }
}

/// A value written in a quoted SQL string is read back as that value, and
/// the literal ends exactly at the quote written after it, whatever text
/// follows that does not begin with another quote: no value can end the
/// literal early and be read as SQL.
pub proof fn lemma_quoted_value_reads_back(value: Seq<char>, rest: Seq<char>)
    requires
        rest.len() == 0 || rest[0] != '\'',
    ensures
        read_literal(sql_escaped(value) + seq!['\''] + rest) == Some(
            (value, sql_escaped(value).len() as int),
        ),
    decreases value.len(),
{
    let t = sql_escaped(value) + seq!['\''] + rest;
    if value.len() == 0 {
        assert(sql_escaped(value) == Seq::<char>::empty());
        assert(t =~= seq!['\''] + rest);
        assert(t[0] == '\'');
        assert(t.len() >= 2 ==> t[1] == rest[0]);
    } else {
        let c = value[0];
        let tail = value.drop_first();
        lemma_quoted_value_reads_back(tail, rest);
        let t2 = sql_escaped(tail) + seq!['\''] + rest;
        assert(sql_escaped(value) == escaped_char(c) + sql_escaped(tail));
        assert(t =~= escaped_char(c) + t2);
        assert(seq![c] + tail =~= value);
        if c == '\'' || c == '\\' {
            assert(t[0] == c && t[1] == c);
            assert(t.skip(2) =~= t2);
        } else {
            assert(t[0] == c);
            assert(t.drop_first() =~= t2);
        }
    }
}

impl Database {
    pub const DATABASE_NAME: &'static str = "protify_server";

    pub const DATABASE_USERNAME: &'static str = "admin";

    pub const DATABASE_PASSWORD: &'static str = "secretpassword";

    pub const DATABASE_IP: &'static str = "127.0.0.1";

    pub const DATABASE_PORTS: u16 = 3306;

    /// The address of the database, as the pool is given it:
    /// `mysql://user:password@ip:port/database`.
    pub fn connection_address(database: &str) -> (r: String)
        ensures
            r@ == "mysql://"@ + Self::DATABASE_USERNAME@ + ":"@ + Self::DATABASE_PASSWORD@ + "@"@
                + Self::DATABASE_IP@ + ":"@ + decimal(Self::DATABASE_PORTS as nat) + "/"@
                + database@,
    {
        let mut r = String::from_str("mysql://");
        r.append(Self::DATABASE_USERNAME);
        r.append(":");
        r.append(Self::DATABASE_PASSWORD);
        r.append("@");
        r.append(Self::DATABASE_IP);
        r.append(":");
        append_decimal(&mut r, Self::DATABASE_PORTS as u64);
        r.append("/");
        r.append(database);
        r
    }

    /// The text of the query `select` sends.
    pub fn select_query(
        select_params: &Vec<String>,
        from_param: &str,
        where_params: &Vec<String>,
    ) -> (r: String)
        ensures
            r@ == select_query_spec(views(select_params@), from_param@, views(where_params@)),
    {
        let mut query_text = String::from_str("SELECT ");
        if select_params.len() == 0 {
            query_text.append("*");
        } else {
            let columns = join(select_params, ", ");
            query_text.append(columns.as_str());
        }
        query_text.append(" FROM ");
        query_text.append(from_param);
        if where_params.len() > 0 {
            query_text.append(" WHERE ");
            let conditions = join(where_params, " AND ");
            query_text.append(conditions.as_str());
        }
        assert(query_text@ =~= select_query_spec(
            views(select_params@),
            from_param@,
            views(where_params@),
        ));
        query_text
    }

    /// The row made of one answer line.
    pub fn row_from_values(waiting_params: &Vec<String>, values: Vec<String>) -> (r: Row)
        ensures
            row_view(r) == row_spec(
                views(waiting_params@),
                views(values@),
                row_width(views(waiting_params@), views(values@)),
            ),
    {
        let mut hash: Row = StringMap::new();
        let n = values.len();
        let mut wait_length: usize = 0;
        let ghost names = views(waiting_params@);
        let ghost vals = views(values@);
        assert(row_view(hash) =~= row_spec(names, vals, 0));
        while wait_length < n && wait_length < waiting_params.len()
            invariant
                wait_length <= n,
                wait_length <= waiting_params@.len(),
                n == values@.len(),
                names == views(waiting_params@),
                vals == views(values@),
                row_view(hash) == row_spec(names, vals, wait_length as nat),
            decreases n - wait_length,
        {
            let waiting_param = waiting_params[wait_length].clone();
            let line = values[wait_length].clone();
            let ghost before = hash@;
            hash.insert(waiting_param, line);
            assert(row_view(hash) =~= row_view_of(before).insert(
                names[wait_length as int],
                vals[wait_length as int],
            ));
            wait_length = wait_length + 1;
        }
        hash
    }

    /// The rows `select` gives back for an outcome of its query: one row per
    /// answer line, or the single error row that tells what failed.
    pub fn select_response(waiting_params: &Vec<String>, outcome: QueryOutcome) -> (r: Vec<Row>)
        ensures
            match outcome {
                QueryOutcome::ConnectionRefused => is_error_answer(
                    r@,
                    connection_refused_message(),
                ),
                QueryOutcome::QueryFailed => is_error_answer(r@, query_failed_message()),
                QueryOutcome::Rows(lines) => r@.len() == lines@.len() && forall|i: int|
                    0 <= i < lines@.len() ==> row_view(#[trigger] r@[i]) == row_spec(
                        views(waiting_params@),
                        views(lines@[i]@),
                        row_width(views(waiting_params@), views(lines@[i]@)),
                    ),
            },
    {
        let mut hash_response: Vec<Row> = Vec::new();
        match outcome {
            QueryOutcome::ConnectionRefused => {
                let mut hash: Row = StringMap::new();
                hash.insert(
                    String::from_str("error_message"),
                    String::from_str("Cannot connect to the Database, connection refused"),
                );
                assert(row_view(hash) =~= Map::<Seq<char>, Seq<char>>::empty().insert(
                    "error_message"@,
                    connection_refused_message(),
                ));
                hash_response.push(hash);
            },
            QueryOutcome::QueryFailed => {
                let mut hash: Row = StringMap::new();
                hash.insert(
                    String::from_str("error_message"),
                    String::from_str("Connection aborted during the query"),
                );
                assert(row_view(hash) =~= Map::<Seq<char>, Seq<char>>::empty().insert(
                    "error_message"@,
                    query_failed_message(),
                ));
                hash_response.push(hash);
            },
            QueryOutcome::Rows(lines) => {
                let n = lines.len();
                let mut lines = lines;
                let ghost all = lines@;
                let mut i: usize = 0;
                while i < n
                    invariant
                        i <= n,
                        n == all.len(),
                        lines@ == all,
                        hash_response@.len() == i,
                        forall|k: int|
                            0 <= k < i ==> row_view(#[trigger] hash_response@[k]) == row_spec(
                                views(waiting_params@),
                                views(all[k]@),
                                row_width(views(waiting_params@), views(all[k]@)),
                            ),
                    decreases n - i,
                {
                    let values = lines[i].clone();
                    let row = Self::row_from_values(waiting_params, values);
                    hash_response.push(row);
                    i = i + 1;
                }
            },
        }
        hash_response
    }

    /// The first error message among the rows, if any row has one.
    pub fn check_errors(&self, response: &Vec<Row>) -> (r: Option<String>)
        ensures
            match first_error(response@) {
                Some(m) => r matches Some(s) && s@ == m,
                None => r is None,
            },
    {
        let key = String::from_str("error_message");
        let n = response.len();
        assert(response@.skip(0) =~= response@);
        let mut i: usize = 0;
        while i < n
            invariant
                i <= n,
                n == response@.len(),
                key@ == "error_message"@,
                first_error(response@) == first_error(response@.skip(i as int)),
            decreases n - i,
        {
            let ghost rest = response@.skip(i as int);
            assert(rest[0] == response@[i as int]);
            match response[i].get(&key) {
                Some(err) => {
                    return Some(err.clone());
                },
                None => {
                    assert(rest.drop_first() =~= response@.skip(i + 1));
                },
            }
            i = i + 1;
        }
        assert(response@.skip(n as int) =~= Seq::<Row>::empty());
        None
    }

    /// The row with each value typed for JSON.
    pub fn convert_hash_map_to_json_value(hashmap: &Row) -> (r: StringMap<JsonValue>)
        ensures
            r@.dom() == hashmap@.dom(),
            forall|k: Seq<char>| #[trigger]
                r@.dom().contains(k) ==> typed_as(r@[k], hashmap@[k]@),
    {
        let mut converted_hash: StringMap<JsonValue> = StringMap::new();
        let n = hashmap.len();
        let mut i: usize = 0;
        while i < n
            invariant
                i <= n,
                n == hashmap.keys().len(),
                hashmap.keys().to_set() == hashmap@.dom(),
                converted_hash@.dom() == hashmap.keys().take(i as int).to_set(),
                forall|k: Seq<char>| #[trigger]
                    converted_hash@.dom().contains(k) ==> hashmap@.dom().contains(k) && typed_as(
                        converted_hash@[k],
                        hashmap@[k]@,
                    ),
            decreases n - i,
        {
            let (key, value) = hashmap.entry_at(i);
            let typed = Self::json_typed(value.as_str());
            let ghost before = converted_hash@;
            converted_hash.insert(key.clone(), typed);
            assert(converted_hash@.dom() =~= hashmap.keys().take(i + 1).to_set()) by {
                assert(hashmap.keys().take(i + 1) =~= hashmap.keys().take(i as int).push(key@));
                hashmap.keys().take(i as int).lemma_push_to_set_commute(key@);
            }
            i = i + 1;
        }
        assert(hashmap.keys().take(n as int) =~= hashmap.keys());
        converted_hash
    }

    /// One column value typed for JSON.
    fn json_typed(value: &str) -> (r: JsonValue)
        ensures
            typed_as(r, value@),
    {
        match parse_i32(value) {
            Some(n) => JsonValue::Int(n as i64),
            None => match parse_bool(value) {
                Some(b) => JsonValue::Bool(b),
                None => if parses_as_json_array(value) {
                    JsonValue::ArrayText(String::from_str(value))
                } else {
                    JsonValue::Text(String::from_str(value))
                },
            },
        }
    }
}

/// The views of the values of a map of strings.
pub open spec fn row_view_of(m: Map<Seq<char>, String>) -> Map<Seq<char>, Seq<char>> {
    m.map_values(|v: String| v@)
}

/// A row read with the names `names` has no column that `names` lacks.
proof fn lemma_row_columns_named(names: Seq<Seq<char>>, values: Seq<Seq<char>>, k: nat, c: Seq<char>)
    requires
        k <= names.len(),
        row_spec(names, values, k).dom().contains(c),
    ensures
        names.contains(c),
    decreases k,
{
    if names[k - 1] != c {
        lemma_row_columns_named(names, values, (k - 1) as nat, c);
    }
}

/// A failure of `select` is detected: its error row gives its message as the
/// first error.
pub proof fn lemma_error_answer_detected(rows: Seq<Row>, message: Seq<char>)
    requires
        is_error_answer(rows, message),
    ensures
        first_error(rows) == Some(message),
{
    assert(row_view(rows[0]).dom().contains("error_message"@));
    assert(rows[0]@.dom() == row_view(rows[0]).dom());
    assert(row_view(rows[0])["error_message"@] == rows[0]@["error_message"@]@);
}

/// The answer of a query whose columns do not include `error_message` is
/// never taken for a failure.
pub proof fn lemma_answer_rows_carry_no_error(
    names: Seq<Seq<char>>,
    lines: Seq<Seq<Seq<char>>>,
    rows: Seq<Row>,
)
    requires
        !names.contains("error_message"@),
        rows.len() == lines.len(),
        forall|i: int|
            0 <= i < lines.len() ==> row_view(#[trigger] rows[i]) == row_spec(
                names,
                lines[i],
                row_width(names, lines[i]),
            ),
    ensures
        first_error(rows) is None,
    decreases rows.len(),
{
    if rows.len() > 0 {
        if rows[0]@.dom().contains("error_message"@) {
            assert(row_view(rows[0]).dom().contains("error_message"@));
            lemma_row_columns_named(names, lines[0], row_width(names, lines[0]), "error_message"@);
        }
        assert forall|i: int| 0 <= i < lines.drop_first().len() implies row_view(
            #[trigger] rows.drop_first()[i],
        ) == row_spec(
            names,
            lines.drop_first()[i],
            row_width(names, lines.drop_first()[i]),
        ) by {
            assert(rows.drop_first()[i] == rows[i + 1]);
        }
        lemma_answer_rows_carry_no_error(names, lines.drop_first(), rows.drop_first());
    }
}

/// The texts `true` and `false`, and only they, are typed as JSON booleans,
/// each as its own value.
pub proof fn lemma_boolean_texts_typed(j: JsonValue, v: Seq<char>)
    requires
        typed_as(j, v),
    ensures
        (j is Bool) <==> (v == "true"@ || v == "false"@),
        v == "true"@ ==> j == JsonValue::Bool(true),
        v == "false"@ ==> j == JsonValue::Bool(false),
{
    reveal_strlit("true");
    reveal_strlit("false");
    assert("true"@ =~= seq!['t', 'r', 'u', 'e']);
    assert("false"@ =~= seq!['f', 'a', 'l', 's', 'e']);
    if v == "true"@ || v == "false"@ {
        assert(!is_ascii_digit(v[0]));
        assert(v[0] != '+' && v[0] != '-');
        assert(unsigned_digits(v) == v);
        assert(!all_digits(v));
        assert(parse_i32_spec(v) is None);
    }
}

/// A column value that is the decimal text of a number no greater than
/// `i32::MAX` is typed as that number.
pub proof fn lemma_number_texts_typed(j: JsonValue, n: nat)
    requires
        n <= 2147483647,
        typed_as(j, decimal(n)),
    ensures
        j == JsonValue::Int(n as i64),
{
    lemma_parse_decimal(n, 2147483647);
    lemma_decimal_digits(n);
}

/// When columns are named, the query selects exactly them, in order and
/// joined with `, `; `*` stands only for a query that names none.
pub proof fn lemma_named_columns_selected(
    select_params: Seq<Seq<char>>,
    from_param: Seq<char>,
    where_params: Seq<Seq<char>>,
)
    ensures
        select_params.len() > 0 ==> select_query_spec(select_params, from_param, where_params).take(
            ("SELECT "@ + join_spec(select_params, ", "@) + " FROM "@).len() as int,
        ) == "SELECT "@ + join_spec(select_params, ", "@) + " FROM "@,
        select_params.len() == 1 ==> select_query_spec(select_params, from_param, where_params).take(
            ("SELECT "@ + select_params[0] + " FROM "@).len() as int,
        ) == "SELECT "@ + select_params[0] + " FROM "@,
        select_params.len() == 0 ==> select_query_spec(select_params, from_param, where_params).take(
            ("SELECT * FROM "@).len() as int,
        ) == "SELECT * FROM "@,
{
    reveal_strlit("SELECT ");
    reveal_strlit(" FROM ");
    reveal_strlit("*");
    reveal_strlit("SELECT * FROM ");
    let q = select_query_spec(select_params, from_param, where_params);
    if select_params.len() > 0 {
        let prefix = "SELECT "@ + join_spec(select_params, ", "@) + " FROM "@;
        assert(q.take(prefix.len() as int) =~= prefix);
    } else {
        assert(q.take(("SELECT * FROM "@).len() as int) =~= "SELECT * FROM "@);
    }
}

} // verus!
