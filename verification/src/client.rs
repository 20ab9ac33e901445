//! The client: the address of a gateway, a schema and default headers, from
//! which builders for tables and stored procedures are made.

use crate::builder::{copy_text, Builder, BuilderView};
use crate::headers::{
    copy_headers, has_room, header_entries, header_fault, header_key, names_fit, set_header,
};
use crate::request::RequestError;
use crate::text::joined;
use reqwest::header::HeaderMap;
use vstd::prelude::*;
use vstd::string::StringExecFns;

verus! {

/// The mathematical value of a `Postgrest` client.
pub struct ClientView {
    pub url: Seq<char>,
    pub schema: Option<Seq<char>>,
    pub headers: Map<Seq<char>, Seq<char>>,
}

impl ClientView {
    /// Whether the default headers leave room for `more` further names.
    pub open spec fn fits(self, more: nat) -> bool {
        names_fit(self.headers, more)
    }

    /// A client for the gateway at `url`, with no schema and no default
    /// header.
    pub open spec fn created(url: Seq<char>) -> ClientView {
        ClientView { url, schema: None, headers: Map::empty() }
    }

    /// After `schema`: the schema is the one given.
    pub open spec fn schema(self, schema: Seq<char>) -> ClientView {
        ClientView { schema: Some(schema), ..self }
    }

    /// After `insert_header`: the default header has the one value.
    pub open spec fn insert_header(self, name: Seq<char>, value: Seq<char>) -> ClientView {
        ClientView { headers: self.headers.insert(header_key(name), value), ..self }
    }

    /// The builder for the table `table`: its address is the client's,
    /// a slash and the table's name.
    pub open spec fn from(self, table: Seq<char>) -> BuilderView {
        BuilderView::created(self.url + "/"@ + table, self.schema, self.headers)
    }

    /// The builder for a call of the stored procedure `function` with the
    /// arguments `params`: its address is the client's, `/rpc/` and the
    /// procedure's name.
    pub open spec fn rpc(self, function: Seq<char>, params: Seq<char>) -> BuilderView {
        BuilderView::created(self.url + "/rpc/"@ + function, self.schema, self.headers).rpc(params)
    }
}

/// A client of one gateway.
pub struct Postgrest {
    url: String,
    schema: Option<String>,
    headers: HeaderMap,
}

impl View for Postgrest {
    type V = ClientView;

    closed spec fn view(&self) -> ClientView {
        ClientView {
            url: self.url@,
            schema: self.schema.deep_view(),
            headers: header_entries(self.headers),
        }
    }
}

impl Postgrest {
    /// Creates a client for the gateway at `url`, which is kept as it is
    /// given.
    pub fn new(url: &str) -> (client: Postgrest)
        ensures
            client@ == ClientView::created(url@),
    {
        Postgrest { url: String::from_str(url), schema: None, headers: HeaderMap::new() }
    }

    /// Switches the schema. Builders made before the call keep the schema
    /// that they were made with.
    pub fn schema(self, schema: &str) -> (client: Postgrest)
        ensures
            client@ == self@.schema(schema@),
    {
        let mut client = self;
        client.schema = Some(String::from_str(schema));
        client
    }

    /// Sets a default header, which every builder made after the call
    /// starts with. A name or a value that is no header text is refused.
    pub fn insert_header(self, name: &str, value: &str) -> (set: Result<Postgrest, RequestError>)
        requires
            self@.fits(1),
        ensures
            match set {
                Ok(client) => header_fault(name@, value@) is None && client@
                    == self@.insert_header(name@, value@),
                Err(e) => header_fault(name@, value@) == Some(e),
            },
    {
        let mut client = self;
        match set_header(&mut client.headers, name, value) {
            Ok(_) => Ok(client),
            Err(e) => Err(e),
        }
    }

    /// The address of the gateway.
    pub fn url(&self) -> (url: &str)
        ensures
            url@ == self@.url,
    {
        self.url.as_str()
    }

    /// The schema, where one is set.
    pub fn schema_name(&self) -> (schema: &Option<String>)
        ensures
            schema.deep_view() == self@.schema,
    {
        &self.schema
    }

    /// The default headers.
    pub fn headers(&self) -> (headers: &HeaderMap)
        ensures
            header_entries(*headers) == self@.headers,
    {
        &self.headers
    }

    /// Whether the default headers leave room for `more` further names, as
    /// `insert_header`, `from` and `rpc` ask.
    pub fn has_room(&self, more: usize) -> (room: bool)
        ensures
            room == self@.fits(more as nat),
    {
        has_room(&self.headers, more)
    }

    /// Starts a request on the table `table`.
    pub fn from(&self, table: &str) -> (builder: Builder)
        requires
            self@.fits(1),
        ensures
            builder@ == self@.from(table@),
    {
        let mut url = joined(self.url.as_str(), "/");
        url.append(table);
        Builder::new(url.as_str(), copy_text(&self.schema), copy_headers(&self.headers))
    }

    /// Starts a call of the stored procedure `function` with the arguments
    /// that `params` holds as JSON.
    pub fn rpc(&self, function: &str, params: &str) -> (builder: Builder)
        requires
            self@.fits(1),
        ensures
            builder@ == self@.rpc(function@, params@),
    {
        let mut url = joined(self.url.as_str(), "/rpc/");
        url.append(function);
        Builder::new(url.as_str(), copy_text(&self.schema), copy_headers(&self.headers)).rpc(
            params,
        )
    }
}

} // verus!
