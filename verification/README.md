# zero2prod

A newsletter service: visitors subscribe with a name and an email address,
get a confirmation email, and confirm through the link it carries.

- `src/` is the verified library (Verus):
  - `domain.rs`: the validated subscriber name and email address. The
    rules are this crate's own: a name may not be empty or all whitespace,
    longer than 256 extended grapheme clusters (`unicode-segmentation`), or
    hold any of `/ ( ) " < > \ { }`; an email address must pass
    `validator::validate_email`;
  - `draws.rs`: randomness and the clock, each draw failing softly
    (`Option`) instead of panicking;
  - `routes/subscriptions.rs`: form conversion, subscription tokens, the
    confirmation email, the row saved for a new subscriber, and the
    decisions of the subscription endpoint as a state machine
    (`Subscription::start` / `Subscription::step`) with its laws;
  - `startup.rs`: the listen address and the base URL handed to handlers.
- `app/` is the server around it: actix-web routes, the database queries,
  and the loop that performs each step the state machine asks for.
- `tests/` runs the library on concrete values.

`app/` also names the service's configuration, telemetry, email client,
health-check and confirmation modules, which this crate does not provide.
