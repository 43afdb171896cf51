//! SQL query builder for osquery.

use vstd::prelude::*;
use crate::text::{chars_of, decimal, decimal_string};

verus! {

/// `s` with every single quote doubled.
pub open spec fn escape_quotes(s: Seq<char>) -> Seq<char>
    decreases s.len(),
{
    if s.len() == 0 {
        Seq::empty()
    } else {
        escape_quotes(s.drop_last()) + if s.last() == '\'' {
            seq!['\'', '\'']
        } else {
            seq![s.last()]
        }
    }
}

/// `s` between single quotes, with its quotes doubled.
pub open spec fn quoted(s: Seq<char>) -> Seq<char> {
    seq!['\''] + escape_quotes(s) + seq!['\'']
}

/// The parts joined with `sep` between neighbours.
pub open spec fn join(parts: Seq<Seq<char>>, sep: Seq<char>) -> Seq<char>
    decreases parts.len(),
{
    if parts.len() == 0 {
        Seq::empty()
    } else if parts.len() == 1 {
        parts[0]
    } else {
        join(parts.drop_last(), sep) + sep + parts.last()
    }
}

/// The texts of a list of strings.
pub open spec fn texts_of(v: Seq<String>) -> Seq<Seq<char>> {
    v.map_values(|s: String| s@)
}

/// The texts of a list of string slices.
pub open spec fn str_texts(v: Seq<&str>) -> Seq<Seq<char>> {
    v.map_values(|s: &str| s@)
}

/// Doubles the single quotes of `s`.
pub fn escape(s: &str) -> (r: String)
    ensures
        r@ == escape_quotes(s@),
{
    let v = chars_of(s);
    let mut out = String::new();
    let mut i: usize = 0;
    proof {
        reveal_strlit("''");
        assert(v@.take(0) =~= Seq::<char>::empty());
    }
    while i < v.len()
        invariant
            v@ == s@,
            i <= v@.len(),
            out@ == escape_quotes(v@.take(i as int)),
        decreases v@.len() - i,
    {
        proof {
            assert(v@.take(i + 1).drop_last() =~= v@.take(i as int));
            assert(v@.take(i + 1).last() == v@[i as int]);
        }
        if v[i] == '\'' {
            proof {
                reveal_strlit("''");
            }
            out.append("''");
        } else {
            out.append(s.substring_char(i, i + 1));
            proof {
                assert(s@.subrange(i as int, i + 1) =~= seq![v@[i as int]]);
            }
        }
        i = i + 1;
    }
    proof {
        assert(v@.take(v@.len() as int) =~= v@);
    }
    out
}

/// Joins strings with `sep` between neighbours.
pub fn join_strings(parts: &Vec<String>, sep: &str) -> (r: String)
    ensures
        r@ == join(texts_of(parts@), sep@),
{
    let mut out = String::new();
    let mut i: usize = 0;
    while i < parts.len()
        invariant
            i <= parts@.len(),
            out@ == join(texts_of(parts@.take(i as int)), sep@),
        decreases parts@.len() - i,
    {
        proof {
            assert(texts_of(parts@.take(i + 1)).drop_last() =~= texts_of(parts@.take(i as int)));
            assert(texts_of(parts@.take(i + 1)).last() == parts@[i as int]@);
            assert(texts_of(parts@.take(i + 1)).len() == i + 1);
            if i == 0 {
                assert(texts_of(parts@.take(0)).len() == 0);
            }
        }
        if i > 0 {
            out.append(sep);
        }
        out.append(parts[i].as_str());
        i = i + 1;
    }
    proof {
        assert(parts@.take(parts@.len() as int) =~= parts@);
    }
    out
}

/// A SELECT query over one table.
#[derive(Debug, Clone)]
pub struct Query {
    select: Vec<String>,
    from: String,
    where_clauses: Vec<String>,
    order_by: Option<String>,
    limit: Option<usize>,
}

/// The text of a query with the given parts.
pub open spec fn query_text(
    select: Seq<Seq<char>>,
    from: Seq<char>,
    conds: Seq<Seq<char>>,
    order: Option<Seq<char>>,
    limit: Option<usize>,
) -> Seq<char> {
    "SELECT "@ + join(select, ", "@) + " FROM "@ + from + (if conds.len() == 0 {
        Seq::empty()
    } else {
        " WHERE "@ + join(conds, " AND "@)
    }) + (match order {
        Some(o) => " ORDER BY "@ + o,
        None => Seq::empty(),
    }) + (match limit {
        Some(n) => " LIMIT "@ + decimal(n as nat),
        None => Seq::empty(),
    })
}

impl Query {
    /// Selected columns.
    pub closed spec fn columns(&self) -> Seq<Seq<char>> {
        texts_of(self.select@)
    }

    /// Queried table.
    pub closed spec fn table(&self) -> Seq<char> {
        self.from@
    }

    /// WHERE conditions, combined with AND.
    pub closed spec fn conditions(&self) -> Seq<Seq<char>> {
        texts_of(self.where_clauses@)
    }

    /// ORDER BY clause.
    pub closed spec fn ordering(&self) -> Option<Seq<char>> {
        match self.order_by {
            Some(o) => Some(o@),
            None => None,
        }
    }

    /// LIMIT clause.
    pub closed spec fn row_limit(&self) -> Option<usize> {
        self.limit
    }

    /// All columns of `table`.
    pub fn new(table: String) -> (r: Self)
        ensures
            r.columns() == seq!["*"@],
            r.table() == table@,
            r.conditions().len() == 0,
            r.ordering() is None,
            r.row_limit() is None,
    {
        let mut select = Vec::new();
        select.push(String::from_str("*"));
        let r = Query { select, from: table, where_clauses: Vec::new(), order_by: None, limit: None };
        proof {
            assert(r.columns() =~= seq!["*"@]);
            assert(r.conditions() =~= Seq::<Seq<char>>::empty());
        }
        r
    }

    /// Selects the given columns instead.
    pub fn select(self, columns: &[&str]) -> (r: Self)
        ensures
            r.columns() == str_texts(columns@),
            r.table() == self.table(),
            r.conditions() == self.conditions(),
            r.ordering() == self.ordering(),
            r.row_limit() == self.row_limit(),
    {
        let mut cols: Vec<String> = Vec::new();
        let mut i: usize = 0;
        while i < columns.len()
            invariant
                i <= columns@.len(),
                texts_of(cols@) == str_texts(columns@.take(i as int)),
            decreases columns@.len() - i,
        {
            let ghost before = cols@;
            let c = String::from_str(columns[i]);
            cols.push(c);
            proof {
                assert(columns@.take(i + 1) =~= columns@.take(i as int).push(columns@[i as int]));
                assert(texts_of(cols@) =~= texts_of(before).push(c@));
                assert(str_texts(columns@.take(i + 1)) =~= str_texts(columns@.take(i as int)).push(
                    columns@[i as int]@,
                ));
            }
            i = i + 1;
        }
        proof {
            assert(columns@.take(columns@.len() as int) =~= columns@);
        }
        Query { select: cols, ..self }
    }

    fn with_condition(self, cond: String) -> (r: Self)
        ensures
            r.columns() == self.columns(),
            r.table() == self.table(),
            r.conditions() == self.conditions().push(cond@),
            r.ordering() == self.ordering(),
            r.row_limit() == self.row_limit(),
    {
        let mut q = self;
        q.where_clauses.push(cond);
        proof {
            assert(q.conditions() =~= self.conditions().push(cond@));
        }
        q
    }

    /// Adds the condition `column = 'value'`, quotes in the value doubled.
    pub fn where_eq(self, column: &str, value: &str) -> (r: Self)
        ensures
            r.columns() == self.columns(),
            r.table() == self.table(),
            r.conditions() == self.conditions().push(column@ + " = "@ + quoted(value@)),
            r.ordering() == self.ordering(),
            r.row_limit() == self.row_limit(),
    {
        proof {
            reveal_strlit("'");
        }
        let cond = String::from_str(column).concat(" = '").concat(escape(value).as_str()).concat(
            "'",
        );
        proof {
            assert(cond@ =~= column@ + " = "@ + quoted(value@)) by {
                reveal_strlit(" = '");
                reveal_strlit(" = ");
            }
        }
        self.with_condition(cond)
    }

    /// Adds the condition `column LIKE 'pattern'`, quotes in the pattern
    /// doubled.
    pub fn where_like(self, column: &str, pattern: &str) -> (r: Self)
        ensures
            r.columns() == self.columns(),
            r.table() == self.table(),
            r.conditions() == self.conditions().push(column@ + " LIKE "@ + quoted(pattern@)),
            r.ordering() == self.ordering(),
            r.row_limit() == self.row_limit(),
    {
        proof {
            reveal_strlit("'");
        }
        let cond = String::from_str(column).concat(" LIKE '").concat(escape(pattern).as_str()).concat(
            "'",
        );
        proof {
            assert(cond@ =~= column@ + " LIKE "@ + quoted(pattern@)) by {
                reveal_strlit(" LIKE '");
                reveal_strlit(" LIKE ");
            }
        }
        self.with_condition(cond)
    }

    /// Adds the condition `column IN ('v1', 'v2', ...)`, quotes in the
    /// values doubled.
    pub fn where_in(self, column: &str, values: &[&str]) -> (r: Self)
        ensures
            r.columns() == self.columns(),
            r.table() == self.table(),
            r.conditions() == self.conditions().push(
                column@ + " IN ("@ + join(str_texts(values@).map_values(|v: Seq<char>| quoted(v)), ", "@)
                    + ")"@,
            ),
            r.ordering() == self.ordering(),
            r.row_limit() == self.row_limit(),
    {
        let mut items: Vec<String> = Vec::new();
        let mut i: usize = 0;
        proof {
            reveal_strlit("'");
        }
        while i < values.len()
            invariant
                i <= values@.len(),
                texts_of(items@) == str_texts(values@.take(i as int)).map_values(
                    |v: Seq<char>| quoted(v),
                ),
            decreases values@.len() - i,
        {
            let ghost before = items@;
            let item = String::from_str("'").concat(escape(values[i]).as_str()).concat("'");
            items.push(item);
            proof {
                reveal_strlit("'");
                assert(item@ =~= quoted(values@[i as int]@));
                assert(values@.take(i + 1) =~= values@.take(i as int).push(values@[i as int]));
                assert(texts_of(items@) =~= texts_of(before).push(item@));
                assert(str_texts(values@.take(i + 1)).map_values(|v: Seq<char>| quoted(v))
                    =~= str_texts(values@.take(i as int)).map_values(|v: Seq<char>| quoted(v)).push(
                    quoted(values@[i as int]@),
                ));
            }
            i = i + 1;
        }
        proof {
            assert(values@.take(values@.len() as int) =~= values@);
        }
        let cond = String::from_str(column).concat(" IN (").concat(
            join_strings(&items, ", ").as_str(),
        ).concat(")");
        self.with_condition(cond)
    }

    /// Orders by `column`, ascending or descending.
    pub fn order_by(self, column: &str, ascending: bool) -> (r: Self)
        ensures
            r.columns() == self.columns(),
            r.table() == self.table(),
            r.conditions() == self.conditions(),
            r.ordering() == Some(column@ + (if ascending {
                " ASC"@
            } else {
                " DESC"@
            })),
            r.row_limit() == self.row_limit(),
    {
        let dir = if ascending {
            " ASC"
        } else {
            " DESC"
        };
        Query { order_by: Some(String::from_str(column).concat(dir)), ..self }
    }

    /// Returns at most `n` rows.
    pub fn limit(self, n: usize) -> (r: Self)
        ensures
            r.columns() == self.columns(),
            r.table() == self.table(),
            r.conditions() == self.conditions(),
            r.ordering() == self.ordering(),
            r.row_limit() == Some(n),
    {
        Query { limit: Some(n), ..self }
    }

    /// The SQL text.
    pub fn build(&self) -> (r: String)
        ensures
            r@ == query_text(
                self.columns(),
                self.table(),
                self.conditions(),
                self.ordering(),
                self.row_limit(),
            ),
    {
        let mut sql = String::from_str("SELECT ").concat(join_strings(&self.select, ", ").as_str())
            .concat(" FROM ").concat(self.from.as_str());
        let ghost base = sql@;
        if self.where_clauses.len() > 0 {
            sql.append(" WHERE ");
            sql.append(join_strings(&self.where_clauses, " AND ").as_str());
        }
        let ghost with_where = sql@;
        match &self.order_by {
            Some(o) => {
                sql.append(" ORDER BY ");
                sql.append(o.as_str());
            },
            None => {},
        }
        let ghost with_order = sql@;
        match self.limit {
            Some(n) => {
                sql.append(" LIMIT ");
                sql.append(decimal_string(n as u64).as_str());
            },
            None => {},
        }
        proof {
            let w: Seq<char> = if self.conditions().len() == 0 {
                Seq::empty()
            } else {
                " WHERE "@ + join(self.conditions(), " AND "@)
            };
            assert(with_where =~= base + w);
            let o: Seq<char> = match self.ordering() {
                Some(o) => " ORDER BY "@ + o,
                None => Seq::empty(),
            };
            assert(with_order =~= base + w + o);
        }
        sql
    }

    /// The SQL text.
    pub fn to_string(&self) -> (r: String)
        ensures
            r@ == query_text(
                self.columns(),
                self.table(),
                self.conditions(),
                self.ordering(),
                self.row_limit(),
            ),
    {
        self.build()
    }
}

/// System information: host name, CPU brand and cores, physical memory.
pub fn system_info() -> (r: Query)
    ensures
        r.table() == "system_info"@,
        r.columns() == seq![
            "hostname"@,
            "cpu_brand"@,
            "cpu_physical_cores"@,
            "cpu_logical_cores"@,
            "physical_memory"@,
        ],
        r.conditions().len() == 0,
        r.ordering() is None,
        r.row_limit() is None,
{
    let cols = ["hostname", "cpu_brand", "cpu_physical_cores", "cpu_logical_cores", "physical_memory"];
    let r = Query::new(String::from_str("system_info")).select(&cols);
    proof {
        assert(r.columns() =~= seq![
            "hostname"@,
            "cpu_brand"@,
            "cpu_physical_cores"@,
            "cpu_logical_cores"@,
            "physical_memory"@,
        ]);
    }
    r
}

/// Operating system name, version, codename, platform and architecture.
pub fn os_version() -> (r: Query)
    ensures
        r.table() == "os_version"@,
        r.columns() == seq![
            "name"@,
            "version"@,
            "codename"@,
            "platform"@,
            "arch"@
        ],
        r.conditions().len() == 0,
        r.ordering() is None,
        r.row_limit() is None,
{
    let cols = ["name", "version", "codename", "platform", "arch"];
    let r = Query::new(String::from_str("os_version")).select(&cols);
    proof {
        assert(r.columns() =~= seq![
            "name"@,
            "version"@,
            "codename"@,
            "platform"@,
            "arch"@
        ]);
    }
    r
}

/// Time since boot.
pub fn uptime() -> (r: Query)
    ensures
        r.table() == "uptime"@,
        r.columns() == seq![
            "days"@,
            "hours"@,
            "minutes"@,
            "seconds"@,
            "total_seconds"@
        ],
        r.conditions().len() == 0,
        r.ordering() is None,
        r.row_limit() is None,
{
    let cols = ["days", "hours", "minutes", "seconds", "total_seconds"];
    let r = Query::new(String::from_str("uptime")).select(&cols);
    proof {
        assert(r.columns() =~= seq![
            "days"@,
            "hours"@,
            "minutes"@,
            "seconds"@,
            "total_seconds"@
        ]);
    }
    r
}

/// Installed Debian packages.
pub fn deb_packages() -> (r: Query)
    ensures
        r.table() == "deb_packages"@,
        r.columns() == seq![
            "name"@,
            "version"@,
            "arch"@,
            "install_time"@
        ],
        r.conditions().len() == 0,
        r.ordering() is None,
        r.row_limit() is None,
{
    let cols = ["name", "version", "arch", "install_time"];
    let r = Query::new(String::from_str("deb_packages")).select(&cols);
    proof {
        assert(r.columns() =~= seq![
            "name"@,
            "version"@,
            "arch"@,
            "install_time"@
        ]);
    }
    r
}

/// Installed RPM packages.
pub fn rpm_packages() -> (r: Query)
    ensures
        r.table() == "rpm_packages"@,
        r.columns() == seq![
            "name"@,
            "version"@,
            "arch"@,
            "install_time"@
        ],
        r.conditions().len() == 0,
        r.ordering() is None,
        r.row_limit() is None,
{
    let cols = ["name", "version", "arch", "install_time"];
    let r = Query::new(String::from_str("rpm_packages")).select(&cols);
    proof {
        assert(r.columns() =~= seq![
            "name"@,
            "version"@,
            "arch"@,
            "install_time"@
        ]);
    }
    r
}

/// Docker containers.
pub fn docker_containers() -> (r: Query)
    ensures
        r.table() == "docker_containers"@,
        r.columns() == seq![
            "id"@,
            "name"@,
            "image"@,
            "state"@,
            "status"@,
            "created"@
        ],
        r.conditions().len() == 0,
        r.ordering() is None,
        r.row_limit() is None,
{
    let cols = ["id", "name", "image", "state", "status", "created"];
    let r = Query::new(String::from_str("docker_containers")).select(&cols);
    proof {
        assert(r.columns() =~= seq![
            "id"@,
            "name"@,
            "image"@,
            "state"@,
            "status"@,
            "created"@
        ]);
    }
    r
}

/// Docker images.
pub fn docker_images() -> (r: Query)
    ensures
        r.table() == "docker_images"@,
        r.columns() == seq![
            "id"@,
            "tags"@,
            "created"@,
            "size"@
        ],
        r.conditions().len() == 0,
        r.ordering() is None,
        r.row_limit() is None,
{
    let cols = ["id", "tags", "created", "size"];
    let r = Query::new(String::from_str("docker_images")).select(&cols);
    proof {
        assert(r.columns() =~= seq![
            "id"@,
            "tags"@,
            "created"@,
            "size"@
        ]);
    }
    r
}

/// The first CPU: model, vendor, cores and clock.
pub fn cpu_info() -> (r: Query)
    ensures
        r.table() == "cpu_info"@,
        r.columns() == seq![
            "brand as model"@,
            "vendor"@,
            "physical_cores"@,
            "logical_cores"@,
            "max_mhz as mhz"@
        ],
        r.conditions().len() == 0,
        r.ordering() is None,
        r.row_limit() == Some(1usize),
{
    let cols = ["brand as model", "vendor", "physical_cores", "logical_cores", "max_mhz as mhz"];
    let r = Query::new(String::from_str("cpu_info")).select(&cols).limit(1);
    proof {
        assert(r.columns() =~= seq![
            "brand as model"@,
            "vendor"@,
            "physical_cores"@,
            "logical_cores"@,
            "max_mhz as mhz"@
        ]);
    }
    r
}

/// Memory and swap totals and free amounts.
pub fn memory_info() -> (r: Query)
    ensures
        r.table() == "memory_info"@,
        r.columns() == seq![
            "memory_total as total"@,
            "memory_free as free"@,
            "(memory_total - memory_free) as used"@,
            "swap_total"@,
            "swap_free"@
        ],
        r.conditions().len() == 0,
        r.ordering() is None,
        r.row_limit() is None,
{
    let cols = ["memory_total as total", "memory_free as free", "(memory_total - memory_free) as used", "swap_total", "swap_free"];
    let r = Query::new(String::from_str("memory_info")).select(&cols);
    proof {
        assert(r.columns() =~= seq![
            "memory_total as total"@,
            "memory_free as free"@,
            "(memory_total - memory_free) as used"@,
            "swap_total"@,
            "swap_free"@
        ]);
    }
    r
}

/// Disk encryption entries.
pub fn disk_info() -> (r: Query)
    ensures
        r.table() == "disk_encryption"@,
        r.columns() == seq![
            "name"@,
            "type"@,
            "uuid"@
        ],
        r.conditions().len() == 0,
        r.ordering() is None,
        r.row_limit() is None,
{
    let cols = ["name", "type", "uuid"];
    let r = Query::new(String::from_str("disk_encryption")).select(&cols);
    proof {
        assert(r.columns() =~= seq![
            "name"@,
            "type"@,
            "uuid"@
        ]);
    }
    r
}

/// Mounted file systems.
pub fn mounts() -> (r: Query)
    ensures
        r.table() == "mounts"@,
        r.columns() == seq![
            "device"@,
            "path"@,
            "type"@,
            "blocks"@,
            "blocks_free"@,
            "blocks_size"@
        ],
        r.conditions().len() == 0,
        r.ordering() is None,
        r.row_limit() is None,
{
    let cols = ["device", "path", "type", "blocks", "blocks_free", "blocks_size"];
    let r = Query::new(String::from_str("mounts")).select(&cols);
    proof {
        assert(r.columns() =~= seq![
            "device"@,
            "path"@,
            "type"@,
            "blocks"@,
            "blocks_free"@,
            "blocks_size"@
        ]);
    }
    r
}

/// Network interface addresses.
pub fn interface_addresses() -> (r: Query)
    ensures
        r.table() == "interface_addresses"@,
        r.columns() == seq![
            "interface"@,
            "address"@,
            "mask"@
        ],
        r.conditions().len() == 0,
        r.ordering() is None,
        r.row_limit() is None,
{
    let cols = ["interface", "address", "mask"];
    let r = Query::new(String::from_str("interface_addresses")).select(&cols);
    proof {
        assert(r.columns() =~= seq![
            "interface"@,
            "address"@,
            "mask"@
        ]);
    }
    r
}

/// Network interface details.
pub fn interface_details() -> (r: Query)
    ensures
        r.table() == "interface_details"@,
        r.columns() == seq![
            "interface"@,
            "mac"@,
            "type"@
        ],
        r.conditions().len() == 0,
        r.ordering() is None,
        r.row_limit() is None,
{
    let cols = ["interface", "mac", "type"];
    let r = Query::new(String::from_str("interface_details")).select(&cols);
    proof {
        assert(r.columns() =~= seq![
            "interface"@,
            "mac"@,
            "type"@
        ]);
    }
    r
}

/// Listening ports.
pub fn listening_ports() -> (r: Query)
    ensures
        r.table() == "listening_ports"@,
        r.columns() == seq![
            "pid"@,
            "port"@,
            "protocol"@,
            "family"@
        ],
        r.conditions().len() == 0,
        r.ordering() is None,
        r.row_limit() is None,
{
    let cols = ["pid", "port", "protocol", "family"];
    let r = Query::new(String::from_str("listening_ports")).select(&cols);
    proof {
        assert(r.columns() =~= seq![
            "pid"@,
            "port"@,
            "protocol"@,
            "family"@
        ]);
    }
    r
}

/// Kernel version and arguments.
pub fn kernel_info() -> (r: Query)
    ensures
        r.table() == "kernel_info"@,
        r.columns() == seq![
            "version"@,
            "arguments"@
        ],
        r.conditions().len() == 0,
        r.ordering() is None,
        r.row_limit() is None,
{
    let cols = ["version", "arguments"];
    let r = Query::new(String::from_str("kernel_info")).select(&cols);
    proof {
        assert(r.columns() =~= seq![
            "version"@,
            "arguments"@
        ]);
    }
    r
}

} // verus!
