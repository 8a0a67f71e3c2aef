//! The fixed answers of the catalogue service: its entry page, the page of
//! its query console, and the wrapper that an executed query's answer is
//! returned in.

use vstd::prelude::*;

verus! {

/// A query as it arrives at the service.
#[derive(Debug)]
pub struct GraphQLRequest {
    pub query: String,
    pub variables: Option<String>,
    pub operation_name: Option<String>,
}

/// The answer to a query: the executed query's result as JSON text.
#[derive(Debug)]
pub struct GraphQLResponse {
    pub response: String,
}

/// Where the service can be reached.
#[derive(Debug)]
pub struct Endpoints {
    pub graphql: String,
    pub playground: String,
}

/// The answer at the root of the service.
#[derive(Debug)]
pub struct IndexResponse {
    pub message: String,
    pub endpoints: Endpoints,
    pub example_query: String,
}

/// The query that the entry page shows as an example.
pub fn example_query() -> (r: &'static str)
    ensures
        r@ == "\n{\n  books {\n    id\n    title\n    author\n    year\n  }\n}\n        "@,
{
    "\n{\n  books {\n    id\n    title\n    author\n    year\n  }\n}\n        "
}

/// The answer at the root of the service.
pub fn index() -> (r: IndexResponse)
    ensures
        r.message@ == "GraphQL API Demo"@,
        r.endpoints.graphql@ == "/graphql"@,
        r.endpoints.playground@ == "/graphql (GET)"@,
        r.example_query@
            == "\n{\n  books {\n    id\n    title\n    author\n    year\n  }\n}\n        "@,
{
    IndexResponse {
        message: String::from_str("GraphQL API Demo"),
        endpoints: Endpoints {
            graphql: String::from_str("/graphql"),
            playground: String::from_str("/graphql (GET)"),
        },
        example_query: String::from_str(example_query()),
    }
}

/// Wraps the JSON text of an executed query's result.
pub fn graphql_handler(executed: String) -> (r: GraphQLResponse)
    ensures
        r.response == executed,
{
    GraphQLResponse { response: executed }
}

/// The page of the query console.
pub fn graphql_playground() -> (r: String)
    ensures
        r@ == "\n        <!DOCTYPE html>\n        <html>\n        <head>\n            <title>GraphQL Playground</title>\n            <link rel=\"stylesheet\" href=\"https://cdn.jsdelivr.net/npm/graphql-playground-react/build/static/css/index.css\" />\n            <script src=\"https://cdn.jsdelivr.net/npm/graphql-playground-react/build/static/js/middleware.js\"></script>\n        </head>\n        <body>\n            <div id=\"root\"></div>\n            <script>\n                window.addEventListener('load', function() {\n                    GraphQLPlayground.init(document.getElementById('root'), {\n                        endpoint: '/graphql',\n                        settings: {\n                            'request.credentials': 'include'\n                        }\n                    })\n                })\n            </script>\n        </body>\n        </html>\n        "@,
{
    String::from_str(
        "\n        <!DOCTYPE html>\n        <html>\n        <head>\n            <title>GraphQL Playground</title>\n            <link rel=\"stylesheet\" href=\"https://cdn.jsdelivr.net/npm/graphql-playground-react/build/static/css/index.css\" />\n            <script src=\"https://cdn.jsdelivr.net/npm/graphql-playground-react/build/static/js/middleware.js\"></script>\n        </head>\n        <body>\n            <div id=\"root\"></div>\n            <script>\n                window.addEventListener('load', function() {\n                    GraphQLPlayground.init(document.getElementById('root'), {\n                        endpoint: '/graphql',\n                        settings: {\n                            'request.credentials': 'include'\n                        }\n                    })\n                })\n            </script>\n        </body>\n        </html>\n        ",
    )
}

} // verus!
