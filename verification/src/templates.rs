//! The HTML pages the web boundary serves, assembled from fixed parts.
//!
//! Every page is the shared header — carrying the page title — then the
//! page body, then the shared footer.
use vstd::prelude::*;
use vstd::string::StringExecFns;

verus! {

/// The shared page header with the given title spliced in.
pub open spec fn spec_header(title: Seq<char>) -> Seq<char> {
    "<!DOCTYPE html>\n<html>\n<head>\n<meta charset=\"utf-8\">\n<title>"@ + title
        + "</title>\n</head>\n<body>\n"@
}

/// The shared page footer.
pub open spec fn spec_footer() -> Seq<char> {
    "</body>\n</html>\n"@
}

/// The body of the order-tracking page.
pub open spec fn spec_index_body() -> Seq<char> {
    "<h1>Spord tracker</h1>\n<div id=\"spords\"></div>\n<script src=\"/js/spords.js\"></script>\n"@
}

/// The body of the login page.
pub open spec fn spec_login_body() -> Seq<char> {
    "<h1>Login</h1>\n<form action=\"/api/user/login\" method=\"post\">\n<input type=\"text\" name=\"username\" placeholder=\"Username\">\n<input type=\"password\" name=\"password\" placeholder=\"Password\">\n<input type=\"submit\" value=\"Log in\">\n</form>\n"@
}

/// The shared header, with the given page title.
pub fn template_header(title: &str) -> (html: String)
    ensures
        html@ == spec_header(title@),
{
    String::from_str("<!DOCTYPE html>\n<html>\n<head>\n<meta charset=\"utf-8\">\n<title>").concat(
        title,
    ).concat("</title>\n</head>\n<body>\n")
}

/// The shared footer.
pub fn template_footer() -> (html: String)
    ensures
        html@ == spec_footer(),
{
    String::from_str("</body>\n</html>\n")
}

/// The order-tracking page: header, order table, footer.
pub fn template_index() -> (html: String)
    ensures
        html@ == spec_header("Index"@) + spec_index_body() + spec_footer(),
{
    template_header("Index").concat(
        "<h1>Spord tracker</h1>\n<div id=\"spords\"></div>\n<script src=\"/js/spords.js\"></script>\n",
    ).concat("</body>\n</html>\n")
}

/// The login page: header, login form, footer.
pub fn template_login() -> (html: String)
    ensures
        html@ == spec_header("Login"@) + spec_login_body() + spec_footer(),
{
    template_header("Login").concat(
        "<h1>Login</h1>\n<form action=\"/api/user/login\" method=\"post\">\n<input type=\"text\" name=\"username\" placeholder=\"Username\">\n<input type=\"password\" name=\"password\" placeholder=\"Password\">\n<input type=\"submit\" value=\"Log in\">\n</form>\n",
    ).concat("</body>\n</html>\n")
}

} // verus!
