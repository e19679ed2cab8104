//! The ABCI application that passes requests on to an application server.

use crate::outcome::text_or_text;
use vstd::prelude::*;

verus! {

/// An ABCI application that stands in for the application server at `omni_url`,
/// whose name is `app_name`.
#[derive(Debug)]
pub struct AbciApp {
    app_name: String,
    omni_url: String,
}

/// View of [`AbciApp`].
pub ghost struct AbciAppView {
    pub app_name: Seq<char>,
    pub omni_url: Seq<char>,
}

impl View for AbciApp {
    type V = AbciAppView;

    closed spec fn view(&self) -> AbciAppView {
        AbciAppView { app_name: self.app_name@, omni_url: self.omni_url@ }
    }
}

impl Clone for AbciApp {
    fn clone(&self) -> (app: Self)
        ensures
            app@ == self@,
    {
        AbciApp { app_name: self.app_name.clone(), omni_url: self.omni_url.clone() }
    }
}

/// The application that comes of the name that the server at an address gives,
/// or why the server gave none.
pub open spec fn app_created(
    omni_url: Seq<char>,
    status: Result<Seq<char>, Seq<char>>,
) -> Result<AbciAppView, Seq<char>> {
    match status {
        Ok(app_name) => Ok(AbciAppView { app_name, omni_url }),
        Err(text) => Err(text),
    }
}

/// View of the outcome of a creation.
pub open spec fn created_view(outcome: Result<AbciApp, String>) -> Result<AbciAppView, Seq<char>> {
    match outcome {
        Ok(app) => Ok(app@),
        Err(text) => Err(text@),
    }
}

impl AbciApp {
    /// The application for the server at an address, which told its status.
    pub fn create_at(omni_url: String, status: Result<String, String>) -> (outcome: Result<
        AbciApp,
        String,
    >)
        ensures
            created_view(outcome) == app_created(omni_url@, text_or_text(status)),
    {
        match status {
            Ok(app_name) => Ok(AbciApp { app_name, omni_url }),
            Err(text) => Err(text),
        }
    }

    /// The name that the application server gave.
    pub fn app_name(&self) -> (app_name: &str)
        ensures
            app_name@ == self@.app_name,
    {
        self.app_name.as_str()
    }

    /// The address of the application server.
    pub fn omni_url(&self) -> (omni_url: &str)
        ensures
            omni_url@ == self@.omni_url,
    {
        self.omni_url.as_str()
    }
}

/// An application that was created tells the address that it was created with and
/// the name that the server told, character for character, and so does a copy of
/// it; where the server told none, the reason is given, character for character.
pub proof fn application_tells_what_it_was_created_with(
    omni_url: String,
    status: Result<String, String>,
    outcome: Result<AbciApp, String>,
    copy: AbciApp,
    app_name: &str,
    address: &str,
)
    requires
        call_ensures(AbciApp::create_at, (omni_url, status), outcome),
        outcome matches Ok(app) ==> call_ensures(AbciApp::clone, (&app,), copy),
        call_ensures(AbciApp::app_name, (&copy,), app_name),
        call_ensures(AbciApp::omni_url, (&copy,), address),
    ensures
        status matches Ok(told) ==> outcome is Ok && app_name@ == told@ && address@ == omni_url@,
        status matches Ok(told) ==> outcome->Ok_0@.app_name == told@ && outcome->Ok_0@.omni_url
            == omni_url@,
        status matches Err(text) ==> (outcome matches Err(reason) && reason@ == text@),
{
}

} // verus!
