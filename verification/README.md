# vardy

The verified core of a small personal web site (home page, app pages with
FAQs, a contact form, a JSON dump store, an Unsplash wallpaper cache, and
per-IP rate limiting), written in Verus.

- `src/` is the library: contact-form validation, start-up configuration
  parsing, asset fingerprints and versioned URLs, the error-to-response
  mapping and which errors are reported, the rate-limit key choice (with a
  textual IP address reader) and rejection response with the limiter's
  headers, the wallpaper cache decisions, upstream error messages,
  template escaping, and the FAQ content. Every function of it is
  verified except three small trusted wrappers, around `sha2` (hashing)
  and `chrono` (date parsing and the clock), whose contracts are assumed.
- `app/` is the server around it: axum routes and handlers, SQLite access,
  outbound HTTP, templates, metrics, logging and error reporting.
- `tests/` exercises the library on concrete values.
