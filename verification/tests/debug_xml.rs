use sentri::xml::XmlParser;

#[test]
fn debug_auto_domain_xml() {
    let parser = XmlParser::new_test_mode();

    // The case with a prefixed domain element
    let test_xml = r#"
    <soap:Envelope xmlns:soap="http://schemas.xmlsoap.org/soap/envelope/">
        <soap:Body>
            <GetFederationInformationResponse xmlns="http://schemas.microsoft.com/exchange/autodiscover/outlook/responseschema/2006a">
                <Response xmlns:auto="http://schemas.microsoft.com/exchange/2010/Autodiscover">
                    <auto:Domain>contoso.com</auto:Domain>
                </Response>
            </GetFederationInformationResponse>
        </soap:Body>
    </soap:Envelope>
    "#;

    match parser.parse_federation_response(test_xml) {
        Ok(federation_info) => {
            println!("DEBUG: XmlParser found domains: {:?}", federation_info.domains);

            // Check if we found the domain
            assert_eq!(federation_info.domains.len(), 1, "Expected to find 1 domain");
            assert!(
                federation_info
                    .domains
                    .contains(&"contoso.com".to_string()),
                "Expected to find contoso.com domain"
            );
        }
        Err(e) => {
            panic!("XmlParser error: {:?}", e);
        }
    }
}
