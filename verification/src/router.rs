//! The top-level dispatch: a two-level lookup from (category, action) to the
//! command to execute, and the entry point that runs an invocation through
//! its handler.

use vstd::prelude::*;

use crate::Error;
use crate::args::RawArguments;
use crate::args::string_eq;
use crate::interpreter::NodeClient;
use crate::interpreter::balance_post;
use crate::interpreter::create_post;
use crate::interpreter::delete_post;
use crate::interpreter::info_post;
use crate::interpreter::is_admin_key;
use crate::interpreter::list_post;
use crate::interpreter::open_get_post;
use crate::interpreter::pay_post;
use crate::interpreter::route_set_post;
use crate::interpreter::set_all_post;
use crate::interpreter::update_admin_post;
use crate::interpreter::update_settings_post;
use crate::request::RequestSpec;

verus! {

/// One entry of the dispatch table: every command the tool knows.
#[derive(Clone, Copy, Debug, PartialEq, Eq, Structural)]
pub enum Command {
    AccountsBalance,
    AccountsCreate,
    AccountsDelete,
    AccountsIncomingPayments,
    AccountsInfo,
    AccountsList,
    AccountsUpdate,
    Pay,
    RatesList,
    RatesSetAll,
    RoutesList,
    RoutesSet,
    RoutesSetAll,
    SettlementEnginesSetAll,
    Status,
}

/// The outcome of looking a command path up in the dispatch table.
#[derive(Clone, Copy, Debug, PartialEq, Eq, Structural)]
pub enum Resolved {
    /// The path names a command.
    Cmd(Command),
    /// No category was given at all.
    NoCategory,
    /// The category requires an action and none was given.
    NoAction,
    /// The path is not in the table: the parser and the table have drifted.
    Unknown,
}

/// The help hint shown when a category requiring an action got none; only
/// such categories are ever consulted here.
pub open spec fn spec_help(c: Seq<char>) -> Seq<char> {
    if c == "accounts"@ {
        "ilp-cli help accounts"@
    } else if c == "rates"@ {
        "ilp-cli help rates"@
    } else if c == "routes"@ {
        "ilp-cli help routes"@
    } else if c == "settlement-engines"@ {
        "ilp-cli help settlement-engines"@
    } else {
        Seq::empty()
    }
}

/// The dispatch table: which command a (category, action) path names, or
/// which way it fails to name one. The categories that carry their own
/// action (`pay`, `status`) ignore the action level entirely.
pub open spec fn spec_resolve(cat: Option<Seq<char>>, act: Option<Seq<char>>) -> Resolved {
    match cat {
        None => Resolved::NoCategory,
        Some(c) => if c == "accounts"@ {
            match act {
                None => Resolved::NoAction,
                Some(a) => if a == "balance"@ {
                    Resolved::Cmd(Command::AccountsBalance)
                } else if a == "create"@ {
                    Resolved::Cmd(Command::AccountsCreate)
                } else if a == "delete"@ {
                    Resolved::Cmd(Command::AccountsDelete)
                } else if a == "incoming-payments"@ {
                    Resolved::Cmd(Command::AccountsIncomingPayments)
                } else if a == "info"@ {
                    Resolved::Cmd(Command::AccountsInfo)
                } else if a == "list"@ {
                    Resolved::Cmd(Command::AccountsList)
                } else if a == "update"@ {
                    Resolved::Cmd(Command::AccountsUpdate)
                } else {
                    Resolved::Unknown
                },
            }
        } else if c == "pay"@ {
            Resolved::Cmd(Command::Pay)
        } else if c == "rates"@ {
            match act {
                None => Resolved::NoAction,
                Some(a) => if a == "list"@ {
                    Resolved::Cmd(Command::RatesList)
                } else if a == "set-all"@ {
                    Resolved::Cmd(Command::RatesSetAll)
                } else {
                    Resolved::Unknown
                },
            }
        } else if c == "routes"@ {
            match act {
                None => Resolved::NoAction,
                Some(a) => if a == "list"@ {
                    Resolved::Cmd(Command::RoutesList)
                } else if a == "set"@ {
                    Resolved::Cmd(Command::RoutesSet)
                } else if a == "set-all"@ {
                    Resolved::Cmd(Command::RoutesSetAll)
                } else {
                    Resolved::Unknown
                },
            }
        } else if c == "settlement-engines"@ {
            match act {
                None => Resolved::NoAction,
                Some(a) => if a == "set-all"@ {
                    Resolved::Cmd(Command::SettlementEnginesSetAll)
                } else {
                    Resolved::Unknown
                },
            }
        } else if c == "status"@ {
            Resolved::Cmd(Command::Status)
        } else {
            Resolved::Unknown
        },
    }
}

pub open spec fn opt_view(o: Option<&str>) -> Option<Seq<char>> {
    match o {
        Some(s) => Some(s@),
        None => None,
    }
}

/// How a resolution result must read back: a command for a table entry, a
/// usage error with the right hint where category or action is missing, and
/// the distinct internal error where the path is off the table.
pub open spec fn resolve_post(
    cat: Option<Seq<char>>,
    act: Option<Seq<char>>,
    r: Result<Command, Error>,
) -> bool {
    match spec_resolve(cat, act) {
        Resolved::Cmd(c) => r == Ok::<Command, Error>(c),
        Resolved::NoCategory => r matches Err(e) && e matches Error::UsageError(s) && s@
            == "ilp-cli help"@,
        Resolved::NoAction => cat matches Some(c) && r matches Err(e) && e matches
            Error::UsageError(s) && s@ == spec_help(c),
        Resolved::Unknown => r matches Err(e) && e matches Error::UnrecognizedCommand,
    }
}

/// Looks a command path up in the dispatch table.
pub fn resolve_command(category: Option<&str>, action: Option<&str>) -> (r: Result<Command, Error>)
    ensures
        resolve_post(opt_view(category), opt_view(action), r),
{
    match category {
        None => Err(Error::UsageError("ilp-cli help")),
        Some(c) => {
            if string_eq(c, "accounts") {
                match action {
                    None => Err(Error::UsageError("ilp-cli help accounts")),
                    Some(a) => {
                        if string_eq(a, "balance") {
                            Ok(Command::AccountsBalance)
                        } else if string_eq(a, "create") {
                            Ok(Command::AccountsCreate)
                        } else if string_eq(a, "delete") {
                            Ok(Command::AccountsDelete)
                        } else if string_eq(a, "incoming-payments") {
                            Ok(Command::AccountsIncomingPayments)
                        } else if string_eq(a, "info") {
                            Ok(Command::AccountsInfo)
                        } else if string_eq(a, "list") {
                            Ok(Command::AccountsList)
                        } else if string_eq(a, "update") {
                            Ok(Command::AccountsUpdate)
                        } else {
                            Err(Error::UnrecognizedCommand)
                        }
                    },
                }
            } else if string_eq(c, "pay") {
                Ok(Command::Pay)
            } else if string_eq(c, "rates") {
                match action {
                    None => Err(Error::UsageError("ilp-cli help rates")),
                    Some(a) => {
                        if string_eq(a, "list") {
                            Ok(Command::RatesList)
                        } else if string_eq(a, "set-all") {
                            Ok(Command::RatesSetAll)
                        } else {
                            Err(Error::UnrecognizedCommand)
                        }
                    },
                }
            } else if string_eq(c, "routes") {
                match action {
                    None => Err(Error::UsageError("ilp-cli help routes")),
                    Some(a) => {
                        if string_eq(a, "list") {
                            Ok(Command::RoutesList)
                        } else if string_eq(a, "set") {
                            Ok(Command::RoutesSet)
                        } else if string_eq(a, "set-all") {
                            Ok(Command::RoutesSetAll)
                        } else {
                            Err(Error::UnrecognizedCommand)
                        }
                    },
                }
            } else if string_eq(c, "settlement-engines") {
                match action {
                    None => Err(Error::UsageError("ilp-cli help settlement-engines")),
                    Some(a) => {
                        if string_eq(a, "set-all") {
                            Ok(Command::SettlementEnginesSetAll)
                        } else {
                            Err(Error::UnrecognizedCommand)
                        }
                    },
                }
            } else if string_eq(c, "status") {
                Ok(Command::Status)
            } else {
                Err(Error::UnrecognizedCommand)
            }
        },
    }
}

/// What running one resolved command must produce, handler by handler.
pub open spec fn command_post(
    base: Seq<char>,
    c: Command,
    raw: Map<Seq<char>, Seq<Seq<char>>>,
    r: Result<RequestSpec, Error>,
) -> bool {
    match c {
        Command::AccountsBalance => balance_post(base, raw, r),
        Command::AccountsCreate => create_post(base, raw, r),
        Command::AccountsDelete => delete_post(base, raw, r),
        Command::AccountsIncomingPayments => r matches Err(e) && e matches Error::Unimplemented,
        Command::AccountsInfo => info_post(base, raw, r),
        Command::AccountsList => list_post(base, raw, r),
        Command::AccountsUpdate => if raw.dom().contains(is_admin_key()) {
            update_admin_post(base, raw, r)
        } else {
            update_settings_post(base, raw, r)
        },
        Command::Pay => pay_post(base, raw, r),
        Command::RatesList => open_get_post(base, "/rates"@, r),
        Command::RatesSetAll => set_all_post(base, "/rates"@, raw, r),
        Command::RoutesList => open_get_post(base, "/routes"@, r),
        Command::RoutesSet => route_set_post(base, raw, r),
        Command::RoutesSetAll => set_all_post(base, "/routes/static"@, raw, r),
        Command::SettlementEnginesSetAll => set_all_post(base, "/settlement/engines"@, raw, r),
        Command::Status => open_get_post(base, "/"@, r),
    }
}

/// What `run` must produce for every invocation: the usage errors of the
/// dispatch level, the internal error for a path off the table, and for a
/// resolved command exactly what its handler promises.
pub open spec fn run_post(
    base: Seq<char>,
    cat: Option<Seq<char>>,
    act: Option<Seq<char>>,
    raw: Map<Seq<char>, Seq<Seq<char>>>,
    r: Result<RequestSpec, Error>,
) -> bool {
    match spec_resolve(cat, act) {
        Resolved::Cmd(c) => command_post(base, c, raw, r),
        Resolved::NoCategory => r matches Err(e) && e matches Error::UsageError(s) && s@
            == "ilp-cli help"@,
        Resolved::NoAction => cat matches Some(c) && r matches Err(e) && e matches
            Error::UsageError(s) && s@ == spec_help(c),
        Resolved::Unknown => r matches Err(e) && e matches Error::UnrecognizedCommand,
    }
}

/// Dispatches one parsed invocation: resolves the command path against the
/// table, then lets the command's handler translate the raw arguments into
/// the request to issue against the node at `node_url`.
pub fn run(
    node_url: &str,
    category: Option<&str>,
    action: Option<&str>,
    raw: &RawArguments,
) -> (r: Result<RequestSpec, Error>)
    ensures
        run_post(node_url@, opt_view(category), opt_view(action), raw@, r),
{
    let client = NodeClient::new(node_url.to_owned());
    let command = match resolve_command(category, action) {
        Ok(c) => c,
        Err(e) => {
            return Err(e);
        },
    };
    match command {
        Command::AccountsBalance => client.get_account_balance(raw),
        Command::AccountsCreate => client.post_or_put_accounts(raw),
        Command::AccountsDelete => client.delete_account(raw),
        Command::AccountsIncomingPayments => client.ws_account_payments_incoming(raw),
        Command::AccountsInfo => client.get_account(raw),
        Command::AccountsList => client.get_accounts(raw),
        Command::AccountsUpdate => {
            if raw.is_present("is_admin") {
                client.put_account(raw)
            } else {
                client.put_account_settings(raw)
            }
        },
        Command::Pay => client.post_account_payments(raw),
        Command::RatesList => client.get_rates(raw),
        Command::RatesSetAll => client.put_rates(raw),
        Command::RoutesList => client.get_routes(raw),
        Command::RoutesSet => client.put_route_static(raw),
        Command::RoutesSetAll => client.put_routes_static(raw),
        Command::SettlementEnginesSetAll => client.put_settlement_engines(raw),
        Command::Status => client.get_root(raw),
    }
}

} // verus!
