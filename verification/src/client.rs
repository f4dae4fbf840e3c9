//! The options a C caller gives to open a client, and the settings the
//! client is opened with.
use vstd::prelude::*;

use crate::error::{RustErrorView, RustResult};
use crate::utils::{c_string_outcome, convert_owned_c_string, ensure_not_null, vec_c_bytes};

verus! {

/// The options for a new client, as a C caller gives them: the endpoint and
/// the database name as C strings (`None` for a null pointer), and whether to
/// connect over TLS.
#[derive(Debug)]
pub struct ClientOptions {
    pub endpoint: Option<Vec<u8>>,
    pub db_name: Option<Vec<u8>>,
    pub secure: bool,
}

/// The settings a client is opened with.
#[derive(Debug, PartialEq)]
pub struct ClientSettings {
    pub endpoint: String,
    pub db_name: String,
    pub secure: bool,
}

/// [`ClientSettings`] with its strings taken as characters.
pub struct SettingsView {
    pub endpoint: Seq<char>,
    pub db_name: Seq<char>,
    pub secure: bool,
}

impl View for ClientSettings {
    type V = SettingsView;

    open spec fn view(&self) -> SettingsView {
        SettingsView { endpoint: self.endpoint@, db_name: self.db_name@, secure: self.secure }
    }
}

/// What resolving client options gives: the error of the endpoint, else the
/// error of the database name, else both decoded with the TLS choice.
pub open spec fn settings_outcome(o: ClientOptions) -> Result<SettingsView, RustErrorView> {
    match c_string_outcome(vec_c_bytes(o.endpoint)) {
        Err(e) => Err(e),
        Ok(endpoint) => match c_string_outcome(vec_c_bytes(o.db_name)) {
            Err(e) => Err(e),
            Ok(db_name) => Ok(SettingsView { endpoint, db_name, secure: o.secure }),
        },
    }
}

impl ClientOptions {
    /// The settings to open the client with: the endpoint and database name
    /// converted, the endpoint first.
    pub fn resolve(&self) -> (res: RustResult<ClientSettings>)
        ensures
            match res {
                Ok(s) => settings_outcome(*self) == Ok::<SettingsView, RustErrorView>(s@),
                Err(e) => settings_outcome(*self) == Err::<SettingsView, RustErrorView>(e@),
            },
            res matches Ok(s) ==> s.secure == self.secure,
    {
        let endpoint = match convert_owned_c_string(&self.endpoint) {
            Ok(s) => s,
            Err(e) => return Err(e),
        };
        let db_name = match convert_owned_c_string(&self.db_name) {
            Ok(s) => s,
            Err(e) => return Err(e),
        };
        Ok(ClientSettings { endpoint, db_name, secure: self.secure })
    }
}

/// Resolving keeps what the caller chose: it succeeds exactly when both C
/// strings convert, and the settings then hold the converted endpoint and
/// database name and the caller's TLS choice.
pub proof fn lemma_settings_keep_options(o: ClientOptions)
    ensures
        settings_outcome(o) is Ok <==> c_string_outcome(vec_c_bytes(o.endpoint)) is Ok
            && c_string_outcome(vec_c_bytes(o.db_name)) is Ok,
        settings_outcome(o) matches Ok(s) ==> {
            &&& s.secure == o.secure
            &&& Ok::<Seq<char>, RustErrorView>(s.endpoint) == c_string_outcome(vec_c_bytes(o.endpoint))
            &&& Ok::<Seq<char>, RustErrorView>(s.db_name) == c_string_outcome(vec_c_bytes(o.db_name))
        },
{
}

/// The checks of the pointers handed over to insert a batch, in the order
/// made: the batch pointer, then the client pointer.
pub fn check_insert_pointers(row_batch_present: bool, client_present: bool) -> (res: RustResult<()>)
    ensures
        res is Ok <==> row_batch_present && client_present,
        !row_batch_present ==> (res matches Err(e) && e@ == RustErrorView::NullPointer(
            "row_batch_ptr"@,
        )),
        row_batch_present && !client_present ==> (res matches Err(e) && e@
            == RustErrorView::NullPointer("client_ptr"@)),
{
    match ensure_not_null(row_batch_present, "row_batch_ptr") {
        Ok(()) => ensure_not_null(client_present, "client_ptr"),
        Err(e) => Err(e),
    }
}

} // verus!
