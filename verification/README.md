# cassandra

Authentication canister for the Internet Computer: a caller that controls the
canister trades a GitHub or Google OAuth authorization code for the user's
profile, signed with the canister's threshold ECDSA key.

- `src/` is the verified library: the configuration and its updates, the
  OAuth request builders, the profile extraction from provider replies, the
  packed and hashed signing payload, the recovery byte of a signature, and
  `methods::flow::step`, which takes an authentication from one stage to the
  next and names the outside work to do.
- `app/` is the canister: stable memory, the endpoints, and the HTTP outcalls,
  signing and address lookups that the flow asks for.
- `tests/` runs the library on concrete values.
