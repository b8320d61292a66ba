# hi_think_financial

Client logic for the HiThink (同花顺) financial data API, verified with Verus.

- `src/` is the verified library:
  - `form`: the `application/x-www-form-urlencoded` text of query parameters
    (through `serde_urlencoded`) and the decimal text of integers;
  - `query`: the `QueryParams` trait that every request type implements, and
    the query string of a request;
  - `types`: request parameter types, the names their enumerated values are
    sent and read as, and the response data types that hold no floats;
  - `endpoint`: the default base URL, the path of every call, and the URL a
    call is sent to (through `reqwest::Url`);
  - `response`: the response envelope and what it yields: the data, a
    business error, or a missing-data error, with their messages.
- `app/` is the asynchronous HTTP client (`reqwest`), the JSON decoding of
  responses (`serde`) and the response types that hold floats.
- `tests/` runs the library on the documented requests and responses.
