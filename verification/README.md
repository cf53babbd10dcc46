# pender

The verified core of Pender, a pet-listing web site. The library in
`src/` holds what the site decides and computes, each function with a
contract proved by Verus; `app/` is the web server (tide, sqlx, tera)
around it.

- `text`: substring search, decimal rendering, joining, character removal.
- `config`: the site configuration, the database URL, the listen address.
- `cities`: the city translation table and the `city` column text.
- `search`: the SQL text of the search listing and count queries.
- `posts`: the upload form, the stored row, image locations, viewed posts.
- `photos`: which photo data URLs the decoder accepts, and decoding them.
- `ids`: random post ids and password-reset codes.
- `hash_format`: which characters of a stored password hash pwhash decodes, and the check that it can read the hash.
- `auth`: password hashing and checking, the signed session token and its claims.
- `forms`: what the login, registration, profile and reset forms answer.
- `site`: session language, static-content redirects, listing and template choice.
