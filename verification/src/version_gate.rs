use crate::error::{opt_text, reports, Error, ErrorView};
use crate::version::{
    parse_version, version_display, version_less, version_parses, version_precedes,
    version_to_string,
};
use vstd::prelude::*;

verus! {

/// What the version gate finds for an option introduced in `option_version`
/// and, where `deprecated_since` is set, deprecated from that version on, at
/// the product version `product_version`.
///
/// The product version and the option's version must both be semantic
/// versions. The option is not supported while the product version precedes
/// the option's version. Once the product version has reached
/// `deprecated_since` the option is deprecated, whatever its value.
pub open spec fn version_finding(
    option_name: Seq<char>,
    product_version: Seq<char>,
    option_version: Seq<char>,
    deprecated_since: Option<Seq<char>>,
) -> Option<ErrorView> {
    if !version_parses(product_version) {
        Some(ErrorView::InvalidVersion { version: product_version })
    } else if !version_parses(option_version) {
        Some(ErrorView::InvalidVersion { version: option_version })
    } else if version_precedes(product_version, option_version) {
        Some(
            ErrorView::VersionNotSupported {
                option_name,
                product_version: version_display(product_version),
                required_version: version_display(option_version),
            },
        )
    } else {
        match deprecated_since {
            None => None,
            Some(deprecated) => if !version_parses(deprecated) {
                Some(ErrorView::InvalidVersion { version: deprecated })
            } else if !version_precedes(product_version, deprecated) {
                Some(
                    ErrorView::VersionDeprecated {
                        option_name,
                        product_version: version_display(product_version),
                        deprecated_version: version_display(deprecated),
                    },
                )
            } else {
                None
            },
        }
    }
}

/// Checks that an option exists at a product version and is not deprecated
/// there.
pub fn check_version_supported_or_deprecated(
    option_name: &str,
    product_version: &str,
    option_version: &str,
    deprecated_since: &Option<String>,
) -> (r: Result<(), Error>)
    ensures
        reports(
            r,
            version_finding(
                option_name@,
                product_version@,
                option_version@,
                opt_text(*deprecated_since),
            ),
        ),
{
    let product = match parse_version(product_version) {
        Some(v) => v,
        None => {
            return Err(Error::InvalidVersion { version: product_version.to_owned() });
        },
    };
    let introduced = match parse_version(option_version) {
        Some(v) => v,
        None => {
            return Err(Error::InvalidVersion { version: option_version.to_owned() });
        },
    };
    if version_less(&product, &introduced) {
        return Err(
            Error::VersionNotSupported {
                option_name: option_name.to_owned(),
                product_version: version_to_string(&product),
                required_version: version_to_string(&introduced),
            },
        );
    }
    match deprecated_since {
        None => Ok(()),
        Some(text) => {
            let deprecated = match parse_version(text.as_str()) {
                Some(v) => v,
                None => {
                    return Err(Error::InvalidVersion { version: text.clone() });
                },
            };
            if !version_less(&product, &deprecated) {
                return Err(
                    Error::VersionDeprecated {
                        option_name: option_name.to_owned(),
                        product_version: version_to_string(&product),
                        deprecated_version: version_to_string(&deprecated),
                    },
                );
            }
            Ok(())
        },
    }
}

} // verus!
