use vstd::prelude::*;

use crate::text::views;

verus! {

/// Path, on each service, of the endpoint that drops the day's data.
pub const CLEAN_DATA_PATH: &'static str = "/api/application/cleanData";

/// An error of an endpoint: something failed that the caller cannot mend. It holds the
/// chain of messages of what failed, the outermost first.
#[derive(Debug)]
pub enum AppError {
    UnexpectedError(Vec<String>),
}

/// The messages of an error, the outermost first.
pub open spec fn error_chain(e: AppError) -> Seq<Seq<char>> {
    match e {
        AppError::UnexpectedError(chain) => views(chain@),
    }
}

/// One `Caused by` paragraph for each cause, in order.
pub open spec fn causes_text(causes: Seq<Seq<char>>) -> Seq<char>
    decreases causes.len(),
{
    if causes.len() == 0 {
        Seq::empty()
    } else {
        causes_text(causes.drop_last()) + "Caused by:\n\t"@ + causes.last() + "\n"@
    }
}

/// An error's message, a blank line, and a `Caused by` paragraph for each cause.
pub open spec fn chain_text(message: Seq<char>, causes: Seq<Seq<char>>) -> Seq<char> {
    message + "\n\n"@ + causes_text(causes)
}

/// Writes an error's message, a blank line, then `Caused by:`, a tab and the message of
/// each cause on a line of its own.
pub fn error_chain_fmt(message: &str, causes: &Vec<String>) -> (r: String)
    ensures
        r@ == chain_text(message@, views(causes@)),
{
    let mut r = String::from_str(message);
    r.append("\n\n");
    let mut i: usize = 0;
    while i < causes.len()
        invariant
            i <= causes.len(),
            r@ == message@ + "\n\n"@ + causes_text(views(causes@).take(i as int)),
        decreases causes.len() - i,
    {
        let ghost before = views(causes@).take(i as int);
        r.append("Caused by:\n\t");
        r.append(causes[i].as_str());
        r.append("\n");
        i = i + 1;
        proof {
            let after = views(causes@).take(i as int);
            assert(after.drop_last() =~= before);
            assert(after.last() == causes@[i - 1]@);
            assert(r@ =~= message@ + "\n\n"@ + causes_text(after));
        }
    }
    assert(views(causes@).take(causes.len() as int) =~= views(causes@));
    r
}

impl AppError {
    /// Every such error answers `500 Internal Server Error`.
    pub fn status_code(&self) -> (r: u16)
        ensures
            r == 500,
    {
        match self {
            AppError::UnexpectedError(_) => 500,
        }
    }

    /// The outermost message; empty for an error without messages.
    pub fn message(&self) -> (r: String)
        ensures
            r@ == (if error_chain(*self).len() > 0 { error_chain(*self)[0] } else { Seq::empty() }),
    {
        match self {
            AppError::UnexpectedError(chain) => {
                if chain.len() > 0 {
                    chain[0].clone()
                } else {
                    String::new()
                }
            },
        }
    }

    /// The outermost message followed by its causes (see [`error_chain_fmt`]).
    pub fn debug_text(&self) -> (r: String)
        ensures
            error_chain(*self).len() > 0 ==> r@ == chain_text(
                error_chain(*self)[0],
                error_chain(*self).drop_first(),
            ),
            error_chain(*self).len() == 0 ==> r@ == chain_text(Seq::empty(), Seq::empty()),
    {
        match self {
            AppError::UnexpectedError(chain) => {
                let mut causes: Vec<String> = Vec::new();
                let mut i: usize = 1;
                while i < chain.len()
                    invariant
                        1 <= i <= chain.len() || (i == 1 && chain.len() == 0),
                        causes@.len() == if i <= chain.len() { i - 1 } else { 0 },
                        forall|j: int| 0 <= j < causes@.len() ==> causes@[j] == chain@[j + 1],
                    decreases chain.len() - i,
                {
                    causes.push(chain[i].clone());
                    i = i + 1;
                }
                let message = if chain.len() > 0 {
                    chain[0].clone()
                } else {
                    String::new()
                };
                proof {
                    if chain.len() > 0 {
                        assert(views(causes@) =~= views(chain@).drop_first());
                    } else {
                        assert(views(causes@) =~= Seq::<Seq<char>>::empty());
                    }
                }
                error_chain_fmt(message.as_str(), &causes)
            },
        }
    }
}

/// The chain of an error raised with the message `context` on top of a failure whose
/// chain is `cause`.
pub open spec fn with_context(context: Seq<char>, cause: Vec<String>) -> Seq<Seq<char>> {
    seq![context] + views(cause@)
}

/// What cleaning all services gives, from what each of the three calls gave: the first
/// failure, in the order locator, internal inventory, order book, with the name of the
/// failed call on top; none when all three succeeded.
pub open spec fn clean_failure(
    locator: Result<(), Vec<String>>,
    internal_inventory: Result<(), Vec<String>>,
    order_book: Result<(), Vec<String>>,
) -> Option<Seq<Seq<char>>> {
    match locator {
        Err(c) => Some(with_context("Failed to call Locator"@, c)),
        Ok(()) => match internal_inventory {
            Err(c) => Some(with_context("Failed to call Internal Inventory"@, c)),
            Ok(()) => match order_book {
                Err(c) => Some(with_context("Failed to call Orderbook"@, c)),
                Ok(()) => None,
            },
        },
    }
}

fn context_error(context: &str, cause: Vec<String>) -> (r: AppError)
    ensures
        error_chain(r) == with_context(context@, cause),
{
    let mut chain: Vec<String> = Vec::new();
    chain.push(String::from_str(context));
    let mut rest = cause;
    let ghost all = rest@;
    let mut taken: usize = 0;
    let total = rest.len();
    while rest.len() > 0
        invariant
            total == all.len(),
            taken + rest@.len() == all.len(),
            rest@ == all.skip(taken as int),
            views(chain@) == seq![context@] + views(all.take(taken as int)),
        decreases rest.len(),
    {
        let ghost chain_before = chain@;
        let c = rest.remove(0);
        proof {
            assert(c == all[taken as int]);
        }
        chain.push(c);
        taken = taken + 1;
        proof {
            assert(rest@ =~= all.skip(taken as int));
            assert(views(chain_before).len() == chain_before.len());
            assert(views(all.take(taken - 1)).len() == taken - 1);
            assert forall|j: int| 0 <= j < chain@.len() implies #[trigger] views(chain@)[j]
                == (seq![context@] + views(all.take(taken as int)))[j] by {
                if j < chain@.len() - 1 {
                    assert(views(chain_before)[j] == (seq![context@] + views(all.take(taken - 1)))[j]);
                }
            }
            assert(views(chain@) =~= seq![context@] + views(all.take(taken as int)));
        }
    }
    assert(all.take(taken as int) =~= all);
    AppError::UnexpectedError(chain)
}

/// Drops the day's data the admin UI keeps. There is none to drop yet.
pub fn clean_admin_ui_data() {
}

/// The answer to cleaning all services, from what the calls to the locator, the internal
/// inventory and the order book gave (see [`clean_failure`]). When all three succeeded the
/// admin UI's data is dropped too.
pub fn clean_all_services_outcome(
    locator: Result<(), Vec<String>>,
    internal_inventory: Result<(), Vec<String>>,
    order_book: Result<(), Vec<String>>,
) -> (r: Result<(), AppError>)
    ensures
        match r {
            Ok(()) => clean_failure(locator, internal_inventory, order_book) is None,
            Err(e) => clean_failure(locator, internal_inventory, order_book) == Some(error_chain(e)),
        },
{
    match locator {
        Err(c) => return Err(context_error("Failed to call Locator", c)),
        Ok(()) => {},
    }
    match internal_inventory {
        Err(c) => return Err(context_error("Failed to call Internal Inventory", c)),
        Ok(()) => {},
    }
    match order_book {
        Err(c) => return Err(context_error("Failed to call Orderbook", c)),
        Ok(()) => {},
    }
    clean_admin_ui_data();
    Ok(())
}

} // verus!
