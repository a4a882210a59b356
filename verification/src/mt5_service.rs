//! MetaTrader 5 session bookkeeping: which broker connections have an open
//! session, keyed by connection id.
//!
//! The actual trading calls go through the brokerage from the application
//! edge; what is kept — and verified — here is the session table and the
//! guards every call must pass: a session must exist and be connected.

use vstd::prelude::*;
use vstd::string::StringExecFns;

use crate::errors::AppError;

verus! {

/// A stored broker connection, as this crate reads it: identifiers and
/// timestamps reduced to plain values.
#[derive(Debug, Clone)]
pub struct BrokerConnection {
    pub id: String,
    pub user_id: String,
    pub name: String,
    pub broker_type: String,
    pub api_key: String,
    pub api_secret: String,
    pub server: Option<String>,
    pub login: Option<String>,
    pub is_active: bool,
    pub is_demo: bool,
    /// Milliseconds since the Unix epoch, if a test ever ran.
    pub last_test_at: Option<i64>,
    pub last_test_status: Option<String>,
    /// Milliseconds since the Unix epoch.
    pub created_at: i64,
    pub updated_at: i64,
}

/// Mathematical model of one open session.
pub ghost struct Mt5SessionModel {
    pub connection_id: Seq<char>,
    pub login: Seq<char>,
    pub password: Seq<char>,
    pub server: Seq<char>,
    pub is_connected: bool,
}

/// Some session in `ss` has this connection id.
pub open spec fn mt5_contains(ss: Seq<Mt5SessionModel>, id: Seq<char>) -> bool {
    exists|i: int| 0 <= i < ss.len() && (#[trigger] ss[i]).connection_id == id
}

/// Index of the session with this connection id, provided one exists.
pub open spec fn mt5_index(ss: Seq<Mt5SessionModel>, id: Seq<char>) -> int {
    choose|i: int| 0 <= i < ss.len() && (#[trigger] ss[i]).connection_id == id
}

/// No two sessions in `ss` share a connection id.
pub open spec fn mt5_distinct(ss: Seq<Mt5SessionModel>) -> bool {
    forall|i: int, j: int|
        0 <= i < j < ss.len() ==> (#[trigger] ss[i]).connection_id != (#[trigger] ss[j]).connection_id
}

/// What removing a session does: the session with this id disappears if
/// present, and nothing happens otherwise.
pub open spec fn spec_mt5_remove(ss: Seq<Mt5SessionModel>, id: Seq<char>) -> Seq<Mt5SessionModel> {
    if mt5_contains(ss, id) {
        ss.remove(mt5_index(ss, id))
    } else {
        ss
    }
}

/// One open session: the credentials it was opened with and whether it is
/// still connected.
struct Mt5Session {
    connection_id: String,
    login: String,
    password: String,
    server: String,
    is_connected: bool,
}

impl View for Mt5Session {
    type V = Mt5SessionModel;

    closed spec fn view(&self) -> Mt5SessionModel {
        Mt5SessionModel {
            connection_id: self.connection_id@,
            login: self.login@,
            password: self.password@,
            server: self.server@,
            is_connected: self.is_connected,
        }
    }
}

/// The session table.
pub struct Mt5Service {
    connections: Vec<Mt5Session>,
}

impl View for Mt5Service {
    type V = Seq<Mt5SessionModel>;

    closed spec fn view(&self) -> Seq<Mt5SessionModel> {
        Seq::new(self.connections@.len(), |i: int| self.connections@[i]@)
    }
}

impl Mt5Service {
    /// Session ids are unique.
    pub open spec fn wf(&self) -> bool {
        mt5_distinct(self@)
    }

    /// An empty session table.
    pub fn new() -> (s: Mt5Service)
        ensures
            s.wf(),
            s@ == Seq::<Mt5SessionModel>::empty(),
    {
        let s = Mt5Service { connections: Vec::new() };
        proof {
            assert(s@ =~= Seq::<Mt5SessionModel>::empty());
        }
        s
    }

    /// Open a session for this broker connection. The connection must name a
    /// login and a server; otherwise the matching error is returned and the
    /// table is unchanged. An existing session under the same id is
    /// replaced.
    pub fn connect(&mut self, connection: &BrokerConnection) -> (r: Result<(), AppError>)
        requires
            old(self).wf(),
        ensures
            final(self).wf(),
            connection.login is None ==> (r matches Err(AppError::Mt5(e)) && e@
                == "Login required for MT5 connection"@ && final(self)@ == old(self)@),
            connection.login is Some && connection.server is None ==> (r matches Err(
                AppError::Mt5(e),
            ) && e@ == "Server required for MT5 connection"@ && final(self)@ == old(self)@),
            connection.login is Some && connection.server is Some ==> r
                == Result::<(), AppError>::Ok(()) && final(self)@ == spec_mt5_remove(
                old(self)@,
                connection.id@,
            ).push(
                Mt5SessionModel {
                    connection_id: connection.id@,
                    login: connection.login->0@,
                    password: connection.api_secret@,
                    server: connection.server->0@,
                    is_connected: true,
                },
            ),
    {
        let login = match &connection.login {
            Some(l) => l.clone(),
            None => {
                return Err(AppError::Mt5(String::from_str("Login required for MT5 connection")));
            },
        };
        let server = match &connection.server {
            Some(s) => s.clone(),
            None => {
                return Err(AppError::Mt5(String::from_str("Server required for MT5 connection")));
            },
        };
        self.remove_session(&connection.id);
        let ghost ss1 = self@;
        let session = Mt5Session {
            connection_id: connection.id.clone(),
            login,
            password: connection.api_secret.clone(),
            server,
            is_connected: true,
        };
        self.connections.push(session);
        proof {
            assert(self@ =~= ss1.push(Mt5SessionModel {
                connection_id: connection.id@,
                login: connection.login->0@,
                password: connection.api_secret@,
                server: connection.server->0@,
                is_connected: true,
            }));
            let ghost ss0 = old(self)@;
            assert forall|j: int| 0 <= j < ss1.len() implies (#[trigger] ss1[j]).connection_id
                != connection.id@ by {
                if mt5_contains(ss0, connection.id@) {
                    let k = mt5_index(ss0, connection.id@);
                    let j0 = if j < k {
                        j
                    } else {
                        j + 1
                    };
                    assert(ss1[j] == ss0[j0]);
                }
            }
            assert forall|a: int, b: int| 0 <= a < b < self@.len() implies (
            #[trigger] self@[a]).connection_id != (#[trigger] self@[b]).connection_id by {
                if b < ss1.len() {
                    assert(self@[a] == ss1[a] && self@[b] == ss1[b]);
                } else {
                    assert(self@[a] == ss1[a]);
                }
            }
        }
        Ok(())
    }

    /// Drop the session with this connection id, if present.
    fn remove_session(&mut self, connection_id: &String)
        requires
            old(self).wf(),
        ensures
            final(self).wf(),
            final(self)@ == spec_mt5_remove(old(self)@, connection_id@),
    {
        let ghost ss0 = self@;
        let n = self.connections.len();
        let mut i: usize = 0;
        let mut found: usize = n;
        #[verifier::loop_isolation(false)]
        while i < n
            invariant
                i <= n,
                found <= n,
                *self == *old(self),
                found == n ==> forall|j: int|
                    0 <= j < i ==> (#[trigger] ss0[j]).connection_id != connection_id@,
                found < n ==> ss0[found as int].connection_id == connection_id@,
            decreases n - i,
        {
            if found == n && self.connections[i].connection_id == *connection_id {
                found = i;
            }
            i = i + 1;
        }
        if found < n {
            proof {
                let k = mt5_index(ss0, connection_id@);
                assert(mt5_contains(ss0, connection_id@));
                if k != found as int {
                    assert(false);
                }
            }
            self.connections.remove(found);
            proof {
                assert(self@ =~= ss0.remove(found as int));
                assert forall|a: int, b: int| 0 <= a < b < self@.len() implies (
                #[trigger] self@[a]).connection_id != (#[trigger] self@[b]).connection_id by {
                    let a0 = if a < found as int {
                        a
                    } else {
                        a + 1
                    };
                    let b0 = if b < found as int {
                        b
                    } else {
                        b + 1
                    };
                    assert(self@[a] == ss0[a0]);
                    assert(self@[b] == ss0[b0]);
                }
            }
        } else {
            proof {
                assert(!mt5_contains(ss0, connection_id@));
            }
        }
    }

    /// Mark the session with this connection id as disconnected. Unknown ids
    /// are a no-op, not an error.
    pub fn disconnect(&mut self, connection_id: &String) -> (r: Result<(), AppError>)
        requires
            old(self).wf(),
        ensures
            final(self).wf(),
            r == Result::<(), AppError>::Ok(()),
            !mt5_contains(old(self)@, connection_id@) ==> final(self)@ == old(self)@,
            mt5_contains(old(self)@, connection_id@) ==> final(self)@ == old(self)@.update(
                mt5_index(old(self)@, connection_id@),
                Mt5SessionModel {
                    is_connected: false,
                    ..old(self)@[mt5_index(old(self)@, connection_id@)]
                },
            ),
    {
        let ghost ss0 = self@;
        let n = self.connections.len();
        let mut i: usize = 0;
        let mut found: usize = n;
        #[verifier::loop_isolation(false)]
        while i < n
            invariant
                i <= n,
                found <= n,
                *self == *old(self),
                found == n ==> forall|j: int|
                    0 <= j < i ==> (#[trigger] ss0[j]).connection_id != connection_id@,
                found < n ==> ss0[found as int].connection_id == connection_id@,
            decreases n - i,
        {
            if found == n && self.connections[i].connection_id == *connection_id {
                found = i;
            }
            i = i + 1;
        }
        if found < n {
            proof {
                let k = mt5_index(ss0, connection_id@);
                assert(mt5_contains(ss0, connection_id@));
                if k != found as int {
                    assert(false);
                }
            }
            self.connections[found].is_connected = false;
            proof {
                assert(self@ =~= ss0.update(found as int, Mt5SessionModel {
                    is_connected: false,
                    ..ss0[found as int]
                }));
                assert forall|a: int, b: int| 0 <= a < b < self@.len() implies (
                #[trigger] self@[a]).connection_id != (#[trigger] self@[b]).connection_id by {
                    assert(ss0[a].connection_id != ss0[b].connection_id);
                }
            }
        } else {
            proof {
                assert(!mt5_contains(ss0, connection_id@));
            }
        }
        Ok(())
    }

    /// Whether a connected session exists under this connection id.
    pub fn is_connected(&self, connection_id: &String) -> (r: bool)
        requires
            self.wf(),
        ensures
            r == (mt5_contains(self@, connection_id@) && self@[mt5_index(
                self@,
                connection_id@,
            )].is_connected),
    {
        let ghost ss = self@;
        let n = self.connections.len();
        let mut i: usize = 0;
        let mut found: usize = n;
        #[verifier::loop_isolation(false)]
        while i < n
            invariant
                i <= n,
                found <= n,
                found == n ==> forall|j: int|
                    0 <= j < i ==> (#[trigger] ss[j]).connection_id != connection_id@,
                found < n ==> ss[found as int].connection_id == connection_id@,
            decreases n - i,
        {
            if found == n && self.connections[i].connection_id == *connection_id {
                found = i;
            }
            i = i + 1;
        }
        if found < n {
            proof {
                let k = mt5_index(ss, connection_id@);
                assert(mt5_contains(ss, connection_id@));
                if k != found as int {
                    assert(false);
                }
            }
            self.connections[found].is_connected
        } else {
            proof {
                assert(!mt5_contains(ss, connection_id@));
            }
            false
        }
    }

    /// Guard for closing a position: the session must exist and be
    /// connected; the brokerage call itself happens at the application edge.
    pub fn close_position(&self, connection_id: &String, _ticket: i64) -> (r: Result<(), AppError>)
        requires
            self.wf(),
        ensures
            !mt5_contains(self@, connection_id@) ==> (r matches Err(AppError::Mt5(e)) && e@
                == "Connection not found"@),
            mt5_contains(self@, connection_id@) && !self@[mt5_index(
                self@,
                connection_id@,
            )].is_connected ==> (r matches Err(AppError::Mt5(e)) && e@ == "Not connected to MT5"@),
            mt5_contains(self@, connection_id@) && self@[mt5_index(
                self@,
                connection_id@,
            )].is_connected ==> r == Result::<(), AppError>::Ok(()),
    {
        let ghost ss = self@;
        let n = self.connections.len();
        let mut i: usize = 0;
        let mut found: usize = n;
        #[verifier::loop_isolation(false)]
        while i < n
            invariant
                i <= n,
                found <= n,
                found == n ==> forall|j: int|
                    0 <= j < i ==> (#[trigger] ss[j]).connection_id != connection_id@,
                found < n ==> ss[found as int].connection_id == connection_id@,
            decreases n - i,
        {
            if found == n && self.connections[i].connection_id == *connection_id {
                found = i;
            }
            i = i + 1;
        }
        if found == n {
            proof {
                assert(!mt5_contains(ss, connection_id@));
            }
            return Err(AppError::Mt5(String::from_str("Connection not found")));
        }
        proof {
            let k = mt5_index(ss, connection_id@);
            assert(mt5_contains(ss, connection_id@));
            if k != found as int {
                assert(false);
            }
        }
        if !self.connections[found].is_connected {
            return Err(AppError::Mt5(String::from_str("Not connected to MT5")));
        }
        Ok(())
    }
}

impl Default for Mt5Service {
    /// Same as [`Mt5Service::new`].
    fn default() -> (s: Self)
        ensures
            s.wf(),
            s@ == Seq::<Mt5SessionModel>::empty(),
    {
        Mt5Service::new()
    }
}

} // verus!
