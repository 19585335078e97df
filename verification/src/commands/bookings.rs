//! Bookings.
use vstd::prelude::*;
use vstd::string::*;

use super::{
    call, call_no_args, fresh_key, group_lookup_args, insert_optional, insert_optional_number,
    object, opt_num_entry, opt_num_value, opt_str_entry, opt_str_value, single_str_object, Entries,
    ToolCall,
};
use crate::json::{entries_view, lookup, Json, JsonV};

verus! {

broadcast use vstd::string::group_string_axioms;

pub enum BookingsCmd {
    /// List bookings.
    List { from: Option<String>, to: Option<String>, status: Option<String>, limit: Option<u32> },
    /// Fetch one booking by ID.
    Get { booking_id: String },
    /// Booking aggregate stats for the active company.
    Stats,
    /// Cancel a booking.
    Cancel { booking_id: String },
    /// Mark a booking complete.
    Complete { booking_id: String },
    /// Confirm a pending booking.
    Confirm { booking_id: String },
}

/// Arguments of `list_bookings`: each filter that is given.
pub open spec fn list_args(
    from: Option<String>,
    to: Option<String>,
    status: Option<String>,
    limit: Option<u32>,
) -> Entries {
    opt_str_entry("from"@, from) + opt_str_entry("to"@, to) + opt_str_entry("status"@, status)
        + opt_num_entry("limit"@, limit)
}

pub open spec fn booking_id_args(id: String) -> JsonV {
    JsonV::Object(seq![("bookingId"@, JsonV::Str(id@))])
}

/// The tool call each bookings subcommand makes.
pub open spec fn bookings_call(cmd: BookingsCmd) -> (Seq<char>, JsonV) {
    match cmd {
        BookingsCmd::List { from, to, status, limit } => (
            "list_bookings"@,
            JsonV::Object(list_args(from, to, status, limit)),
        ),
        BookingsCmd::Get { booking_id } => ("get_booking_detail"@, booking_id_args(booking_id)),
        BookingsCmd::Stats => ("get_booking_stats"@, JsonV::Object(Seq::empty())),
        BookingsCmd::Cancel { booking_id } => ("cancel_booking"@, booking_id_args(booking_id)),
        BookingsCmd::Complete { booking_id } => ("complete_booking"@, booking_id_args(booking_id)),
        BookingsCmd::Confirm { booking_id } => ("confirm_booking"@, booking_id_args(booking_id)),
    }
}

impl BookingsCmd {
    pub fn tool_call(self) -> (r: ToolCall)
        ensures
            r@ == bookings_call(self),
    {
        match self {
            BookingsCmd::List { from, to, status, limit } => {
                proof {
                    reveal_strlit("from");
                    reveal_strlit("to");
                    reveal_strlit("status");
                    reveal_strlit("limit");
                    assert("from"@.len() == 4 && "to"@.len() == 2 && "status"@.len() == 6
                        && "limit"@.len() == 5);
                }
                let ghost (f, t, s, l) = (from, to, status, limit);
                let mut args: Vec<(String, Json)> = Vec::new();
                assert(entries_view(args@) =~= Seq::empty());
                insert_optional(&mut args, "from", from);
                assert(fresh_key(entries_view(args@), "to"@));
                insert_optional(&mut args, "to", to);
                assert(fresh_key(entries_view(args@), "status"@));
                insert_optional(&mut args, "status", status);
                assert(fresh_key(entries_view(args@), "limit"@));
                insert_optional_number(&mut args, "limit", limit);
                assert(entries_view(args@) =~= list_args(f, t, s, l));
                call("list_bookings", object(args))
            },
            BookingsCmd::Get { booking_id } => call(
                "get_booking_detail",
                single_str_object("bookingId", booking_id),
            ),
            BookingsCmd::Stats => call_no_args("get_booking_stats"),
            BookingsCmd::Cancel { booking_id } => call(
                "cancel_booking",
                single_str_object("bookingId", booking_id),
            ),
            BookingsCmd::Complete { booking_id } => call(
                "complete_booking",
                single_str_object("bookingId", booking_id),
            ),
            BookingsCmd::Confirm { booking_id } => call(
                "confirm_booking",
                single_str_object("bookingId", booking_id),
            ),
        }
    }
}

/// Listing bookings sends exactly the filters that are given, each under its
/// own key (`from`, `to`, `status`, `limit`), and nothing else.
pub proof fn law_list_bookings_sends_given_filters(
    from: Option<String>,
    to: Option<String>,
    status: Option<String>,
    limit: Option<u32>,
)
    ensures
        bookings_call(BookingsCmd::List { from, to, status, limit }).0 == "list_bookings"@,
        bookings_call(BookingsCmd::List { from, to, status, limit }).1 is Object,
        lookup(bookings_call(BookingsCmd::List { from, to, status, limit }).1, "from"@)
            == opt_str_value(from),
        lookup(bookings_call(BookingsCmd::List { from, to, status, limit }).1, "to"@)
            == opt_str_value(to),
        lookup(bookings_call(BookingsCmd::List { from, to, status, limit }).1, "status"@)
            == opt_str_value(status),
        lookup(bookings_call(BookingsCmd::List { from, to, status, limit }).1, "limit"@)
            == opt_num_value(limit),
        forall|k: Seq<char>|
            k != "from"@ && k != "to"@ && k != "status"@ && k != "limit"@ ==> lookup(
                #[trigger] bookings_call(BookingsCmd::List { from, to, status, limit }).1,
                k,
            ) is None,
{
    broadcast use group_lookup_args;

    reveal_strlit("from");
    reveal_strlit("to");
    reveal_strlit("status");
    reveal_strlit("limit");
    assert("from"@.len() == 4 && "to"@.len() == 2 && "status"@.len() == 6 && "limit"@.len() == 5);
}

/// A subcommand that acts on one booking calls its own tool (fetch:
/// `get_booking_detail`, cancel: `cancel_booking`, complete:
/// `complete_booking`, confirm: `confirm_booking`) with the booking's ID, and
/// nothing else, under `bookingId`; the stats call sends no arguments.
pub proof fn law_booking_actions(id: String)
    ensures
        bookings_call(BookingsCmd::Get { booking_id: id }) == ("get_booking_detail"@, JsonV::Object(
            seq![("bookingId"@, JsonV::Str(id@))],
        )),
        bookings_call(BookingsCmd::Cancel { booking_id: id }) == ("cancel_booking"@, JsonV::Object(
            seq![("bookingId"@, JsonV::Str(id@))],
        )),
        bookings_call(BookingsCmd::Complete { booking_id: id }) == ("complete_booking"@,
        JsonV::Object(seq![("bookingId"@, JsonV::Str(id@))])),
        bookings_call(BookingsCmd::Confirm { booking_id: id }) == ("confirm_booking"@,
        JsonV::Object(seq![("bookingId"@, JsonV::Str(id@))])),
        bookings_call(BookingsCmd::Stats) == ("get_booking_stats"@, JsonV::Object(Seq::empty())),
{
}

/// No two bookings subcommands call the same tool: the tool named decides
/// the subcommand.
pub proof fn law_bookings_tools_distinct(a: BookingsCmd, b: BookingsCmd)
    requires
        bookings_call(a).0 == bookings_call(b).0,
    ensures
        a is List <==> b is List,
        a is Get <==> b is Get,
        a is Stats <==> b is Stats,
        a is Cancel <==> b is Cancel,
        a is Complete <==> b is Complete,
        a is Confirm <==> b is Confirm,
{
    reveal_strlit("list_bookings");
    reveal_strlit("get_booking_detail");
    reveal_strlit("get_booking_stats");
    reveal_strlit("cancel_booking");
    reveal_strlit("complete_booking");
    reveal_strlit("confirm_booking");
    assert("list_bookings"@.len() == 13 && "get_booking_detail"@.len() == 18
        && "get_booking_stats"@.len() == 17 && "cancel_booking"@.len() == 14
        && "complete_booking"@.len() == 16 && "confirm_booking"@.len() == 15);
}

} // verus!
