//! Checks of the reference data that the verifier makes: every key is stored
//! in the form in which essences come out of parsing, in lower case and
//! without parameters. A key in any other form could never be found.
//!
//! A string literal tells the verifier nothing until it is revealed, so each
//! block of rows names its keys once more and checks them one by one.

use vstd::prelude::*;

use crate::essence::is_normalized;
use crate::registry::REFERENCE_ENTRIES;

verus! {

/// Rows 0 to 35.
proof fn lemma_keys_normalized_000()
    ensures
        forall|i: int|
            0 <= i < 36 ==> is_normalized((#[trigger] REFERENCE_ENTRIES@[i]).0@),
{
    reveal_strlit("application/3gpdash-qoe-report+xml");
    assert(is_normalized("application/3gpdash-qoe-report+xml"@));
    reveal_strlit("application/3gpp-ims+xml");
    assert(is_normalized("application/3gpp-ims+xml"@));
    reveal_strlit("application/3gpphal+json");
    assert(is_normalized("application/3gpphal+json"@));
    reveal_strlit("application/3gpphalforms+json");
    assert(is_normalized("application/3gpphalforms+json"@));
    reveal_strlit("application/activity+json");
    assert(is_normalized("application/activity+json"@));
    reveal_strlit("application/alto-costmap+json");
    assert(is_normalized("application/alto-costmap+json"@));
    reveal_strlit("application/alto-costmapfilter+json");
    assert(is_normalized("application/alto-costmapfilter+json"@));
    reveal_strlit("application/alto-directory+json");
    assert(is_normalized("application/alto-directory+json"@));
    reveal_strlit("application/alto-endpointcost+json");
    assert(is_normalized("application/alto-endpointcost+json"@));
    reveal_strlit("application/alto-endpointcostparams+json");
    assert(is_normalized("application/alto-endpointcostparams+json"@));
    reveal_strlit("application/alto-endpointprop+json");
    assert(is_normalized("application/alto-endpointprop+json"@));
    reveal_strlit("application/alto-endpointpropparams+json");
    assert(is_normalized("application/alto-endpointpropparams+json"@));
    reveal_strlit("application/alto-error+json");
    assert(is_normalized("application/alto-error+json"@));
    reveal_strlit("application/alto-networkmap+json");
    assert(is_normalized("application/alto-networkmap+json"@));
    reveal_strlit("application/alto-networkmapfilter+json");
    assert(is_normalized("application/alto-networkmapfilter+json"@));
    reveal_strlit("application/alto-updatestreamcontrol+json");
    assert(is_normalized("application/alto-updatestreamcontrol+json"@));
    reveal_strlit("application/alto-updatestreamparams+json");
    assert(is_normalized("application/alto-updatestreamparams+json"@));
    reveal_strlit("application/atom+xml");
    assert(is_normalized("application/atom+xml"@));
    reveal_strlit("application/atomcat+xml");
    assert(is_normalized("application/atomcat+xml"@));
    reveal_strlit("application/atomdeleted+xml");
    assert(is_normalized("application/atomdeleted+xml"@));
    reveal_strlit("application/atomsvc+xml");
    assert(is_normalized("application/atomsvc+xml"@));
    reveal_strlit("application/atsc-dwd+xml");
    assert(is_normalized("application/atsc-dwd+xml"@));
    reveal_strlit("application/atsc-held+xml");
    assert(is_normalized("application/atsc-held+xml"@));
    reveal_strlit("application/atsc-rdt+json");
    assert(is_normalized("application/atsc-rdt+json"@));
    reveal_strlit("application/atsc-rsat+xml");
    assert(is_normalized("application/atsc-rsat+xml"@));
    reveal_strlit("application/auth-policy+xml");
    assert(is_normalized("application/auth-policy+xml"@));
    reveal_strlit("application/beep+xml");
    assert(is_normalized("application/beep+xml"@));
    reveal_strlit("application/calendar+json");
    assert(is_normalized("application/calendar+json"@));
    reveal_strlit("application/calendar+xml");
    assert(is_normalized("application/calendar+xml"@));
    reveal_strlit("application/captive+json");
    assert(is_normalized("application/captive+json"@));
    reveal_strlit("application/ccmp+xml");
    assert(is_normalized("application/ccmp+xml"@));
    reveal_strlit("application/ccxml+xml");
    assert(is_normalized("application/ccxml+xml"@));
    reveal_strlit("application/cdfx+xml");
    assert(is_normalized("application/cdfx+xml"@));
    reveal_strlit("application/cea-2018+xml");
    assert(is_normalized("application/cea-2018+xml"@));
    reveal_strlit("application/cellml+xml");
    assert(is_normalized("application/cellml+xml"@));
    reveal_strlit("application/clue+xml");
    assert(is_normalized("application/clue+xml"@));
}

/// Rows 36 to 71.
proof fn lemma_keys_normalized_036()
    ensures
        forall|i: int|
            36 <= i < 72 ==> is_normalized((#[trigger] REFERENCE_ENTRIES@[i]).0@),
{
    reveal_strlit("application/clue_info+xml");
    assert(is_normalized("application/clue_info+xml"@));
    reveal_strlit("application/cnrp+xml");
    assert(is_normalized("application/cnrp+xml"@));
    reveal_strlit("application/coap-group+json");
    assert(is_normalized("application/coap-group+json"@));
    reveal_strlit("application/conference-info+xml");
    assert(is_normalized("application/conference-info+xml"@));
    reveal_strlit("application/cpl+xml");
    assert(is_normalized("application/cpl+xml"@));
    reveal_strlit("application/csta+xml");
    assert(is_normalized("application/csta+xml"@));
    reveal_strlit("application/cstadata+xml");
    assert(is_normalized("application/cstadata+xml"@));
    reveal_strlit("application/csvm+json");
    assert(is_normalized("application/csvm+json"@));
    reveal_strlit("application/dart");
    assert(is_normalized("application/dart"@));
    reveal_strlit("application/dash+xml");
    assert(is_normalized("application/dash+xml"@));
    reveal_strlit("application/davmount+xml");
    assert(is_normalized("application/davmount+xml"@));
    reveal_strlit("application/dialog-info+xml");
    assert(is_normalized("application/dialog-info+xml"@));
    reveal_strlit("application/dicom+json");
    assert(is_normalized("application/dicom+json"@));
    reveal_strlit("application/dicom+xml");
    assert(is_normalized("application/dicom+xml"@));
    reveal_strlit("application/dns+json");
    assert(is_normalized("application/dns+json"@));
    reveal_strlit("application/docbook+xml");
    assert(is_normalized("application/docbook+xml"@));
    reveal_strlit("application/dskpp+xml");
    assert(is_normalized("application/dskpp+xml"@));
    reveal_strlit("application/dssc+xml");
    assert(is_normalized("application/dssc+xml"@));
    reveal_strlit("application/ecmascript");
    assert(is_normalized("application/ecmascript"@));
    reveal_strlit("application/elm+json");
    assert(is_normalized("application/elm+json"@));
    reveal_strlit("application/elm+xml");
    assert(is_normalized("application/elm+xml"@));
    reveal_strlit("application/emergencycalldata.cap+xml");
    assert(is_normalized("application/emergencycalldata.cap+xml"@));
    reveal_strlit("application/emergencycalldata.comment+xml");
    assert(is_normalized("application/emergencycalldata.comment+xml"@));
    reveal_strlit("application/emergencycalldata.control+xml");
    assert(is_normalized("application/emergencycalldata.control+xml"@));
    reveal_strlit("application/emergencycalldata.deviceinfo+xml");
    assert(is_normalized("application/emergencycalldata.deviceinfo+xml"@));
    reveal_strlit("application/emergencycalldata.providerinfo+xml");
    assert(is_normalized("application/emergencycalldata.providerinfo+xml"@));
    reveal_strlit("application/emergencycalldata.serviceinfo+xml");
    assert(is_normalized("application/emergencycalldata.serviceinfo+xml"@));
    reveal_strlit("application/emergencycalldata.subscriberinfo+xml");
    assert(is_normalized("application/emergencycalldata.subscriberinfo+xml"@));
    reveal_strlit("application/emergencycalldata.veds+xml");
    assert(is_normalized("application/emergencycalldata.veds+xml"@));
    reveal_strlit("application/emma+xml");
    assert(is_normalized("application/emma+xml"@));
    reveal_strlit("application/emotionml+xml");
    assert(is_normalized("application/emotionml+xml"@));
    reveal_strlit("application/epp+xml");
    assert(is_normalized("application/epp+xml"@));
    reveal_strlit("application/expect-ct-report+json");
    assert(is_normalized("application/expect-ct-report+json"@));
    reveal_strlit("application/fdt+xml");
    assert(is_normalized("application/fdt+xml"@));
    reveal_strlit("application/fhir+json");
    assert(is_normalized("application/fhir+json"@));
    reveal_strlit("application/fhir+xml");
    assert(is_normalized("application/fhir+xml"@));
}

/// Rows 72 to 107.
proof fn lemma_keys_normalized_072()
    ensures
        forall|i: int|
            72 <= i < 108 ==> is_normalized((#[trigger] REFERENCE_ENTRIES@[i]).0@),
{
    reveal_strlit("application/fido.trusted-apps+json");
    assert(is_normalized("application/fido.trusted-apps+json"@));
    reveal_strlit("application/framework-attributes+xml");
    assert(is_normalized("application/framework-attributes+xml"@));
    reveal_strlit("application/geo+json");
    assert(is_normalized("application/geo+json"@));
    reveal_strlit("application/geoxacml+xml");
    assert(is_normalized("application/geoxacml+xml"@));
    reveal_strlit("application/gml+xml");
    assert(is_normalized("application/gml+xml"@));
    reveal_strlit("application/gpx+xml");
    assert(is_normalized("application/gpx+xml"@));
    reveal_strlit("application/held+xml");
    assert(is_normalized("application/held+xml"@));
    reveal_strlit("application/ibe-key-request+xml");
    assert(is_normalized("application/ibe-key-request+xml"@));
    reveal_strlit("application/ibe-pkg-reply+xml");
    assert(is_normalized("application/ibe-pkg-reply+xml"@));
    reveal_strlit("application/im-iscomposing+xml");
    assert(is_normalized("application/im-iscomposing+xml"@));
    reveal_strlit("application/inkml+xml");
    assert(is_normalized("application/inkml+xml"@));
    reveal_strlit("application/its+xml");
    assert(is_normalized("application/its+xml"@));
    reveal_strlit("application/javascript");
    assert(is_normalized("application/javascript"@));
    reveal_strlit("application/jf2feed+json");
    assert(is_normalized("application/jf2feed+json"@));
    reveal_strlit("application/jose+json");
    assert(is_normalized("application/jose+json"@));
    reveal_strlit("application/jrd+json");
    assert(is_normalized("application/jrd+json"@));
    reveal_strlit("application/jscalendar+json");
    assert(is_normalized("application/jscalendar+json"@));
    reveal_strlit("application/json");
    assert(is_normalized("application/json"@));
    reveal_strlit("application/json-patch+json");
    assert(is_normalized("application/json-patch+json"@));
    reveal_strlit("application/jsonml+json");
    assert(is_normalized("application/jsonml+json"@));
    reveal_strlit("application/jwk+json");
    assert(is_normalized("application/jwk+json"@));
    reveal_strlit("application/jwk-set+json");
    assert(is_normalized("application/jwk-set+json"@));
    reveal_strlit("application/kpml-request+xml");
    assert(is_normalized("application/kpml-request+xml"@));
    reveal_strlit("application/kpml-response+xml");
    assert(is_normalized("application/kpml-response+xml"@));
    reveal_strlit("application/ld+json");
    assert(is_normalized("application/ld+json"@));
    reveal_strlit("application/lgr+xml");
    assert(is_normalized("application/lgr+xml"@));
    reveal_strlit("application/load-control+xml");
    assert(is_normalized("application/load-control+xml"@));
    reveal_strlit("application/lost+xml");
    assert(is_normalized("application/lost+xml"@));
    reveal_strlit("application/lostsync+xml");
    assert(is_normalized("application/lostsync+xml"@));
    reveal_strlit("application/mads+xml");
    assert(is_normalized("application/mads+xml"@));
    reveal_strlit("application/manifest+json");
    assert(is_normalized("application/manifest+json"@));
    reveal_strlit("application/marcxml+xml");
    assert(is_normalized("application/marcxml+xml"@));
    reveal_strlit("application/mathml+xml");
    assert(is_normalized("application/mathml+xml"@));
    reveal_strlit("application/mathml-content+xml");
    assert(is_normalized("application/mathml-content+xml"@));
    reveal_strlit("application/mathml-presentation+xml");
    assert(is_normalized("application/mathml-presentation+xml"@));
    reveal_strlit("application/mbms-associated-procedure-description+xml");
    assert(is_normalized("application/mbms-associated-procedure-description+xml"@));
}

/// Rows 108 to 143.
proof fn lemma_keys_normalized_108()
    ensures
        forall|i: int|
            108 <= i < 144 ==> is_normalized((#[trigger] REFERENCE_ENTRIES@[i]).0@),
{
    reveal_strlit("application/mbms-deregister+xml");
    assert(is_normalized("application/mbms-deregister+xml"@));
    reveal_strlit("application/mbms-envelope+xml");
    assert(is_normalized("application/mbms-envelope+xml"@));
    reveal_strlit("application/mbms-msk+xml");
    assert(is_normalized("application/mbms-msk+xml"@));
    reveal_strlit("application/mbms-msk-response+xml");
    assert(is_normalized("application/mbms-msk-response+xml"@));
    reveal_strlit("application/mbms-protection-description+xml");
    assert(is_normalized("application/mbms-protection-description+xml"@));
    reveal_strlit("application/mbms-reception-report+xml");
    assert(is_normalized("application/mbms-reception-report+xml"@));
    reveal_strlit("application/mbms-register+xml");
    assert(is_normalized("application/mbms-register+xml"@));
    reveal_strlit("application/mbms-register-response+xml");
    assert(is_normalized("application/mbms-register-response+xml"@));
    reveal_strlit("application/mbms-schedule+xml");
    assert(is_normalized("application/mbms-schedule+xml"@));
    reveal_strlit("application/mbms-user-service-description+xml");
    assert(is_normalized("application/mbms-user-service-description+xml"@));
    reveal_strlit("application/media-policy-dataset+xml");
    assert(is_normalized("application/media-policy-dataset+xml"@));
    reveal_strlit("application/media_control+xml");
    assert(is_normalized("application/media_control+xml"@));
    reveal_strlit("application/mediaservercontrol+xml");
    assert(is_normalized("application/mediaservercontrol+xml"@));
    reveal_strlit("application/merge-patch+json");
    assert(is_normalized("application/merge-patch+json"@));
    reveal_strlit("application/metalink+xml");
    assert(is_normalized("application/metalink+xml"@));
    reveal_strlit("application/metalink4+xml");
    assert(is_normalized("application/metalink4+xml"@));
    reveal_strlit("application/mets+xml");
    assert(is_normalized("application/mets+xml"@));
    reveal_strlit("application/mmt-aei+xml");
    assert(is_normalized("application/mmt-aei+xml"@));
    reveal_strlit("application/mmt-usd+xml");
    assert(is_normalized("application/mmt-usd+xml"@));
    reveal_strlit("application/mods+xml");
    assert(is_normalized("application/mods+xml"@));
    reveal_strlit("application/mrb-consumer+xml");
    assert(is_normalized("application/mrb-consumer+xml"@));
    reveal_strlit("application/mrb-publish+xml");
    assert(is_normalized("application/mrb-publish+xml"@));
    reveal_strlit("application/msc-ivr+xml");
    assert(is_normalized("application/msc-ivr+xml"@));
    reveal_strlit("application/msc-mixer+xml");
    assert(is_normalized("application/msc-mixer+xml"@));
    reveal_strlit("application/mud+json");
    assert(is_normalized("application/mud+json"@));
    reveal_strlit("application/nlsml+xml");
    assert(is_normalized("application/nlsml+xml"@));
    reveal_strlit("application/odm+xml");
    assert(is_normalized("application/odm+xml"@));
    reveal_strlit("application/oebps-package+xml");
    assert(is_normalized("application/oebps-package+xml"@));
    reveal_strlit("application/omdoc+xml");
    assert(is_normalized("application/omdoc+xml"@));
    reveal_strlit("application/opc-nodeset+xml");
    assert(is_normalized("application/opc-nodeset+xml"@));
    reveal_strlit("application/p2p-overlay+xml");
    assert(is_normalized("application/p2p-overlay+xml"@));
    reveal_strlit("application/patch-ops-error+xml");
    assert(is_normalized("application/patch-ops-error+xml"@));
    reveal_strlit("application/pidf+xml");
    assert(is_normalized("application/pidf+xml"@));
    reveal_strlit("application/pidf-diff+xml");
    assert(is_normalized("application/pidf-diff+xml"@));
    reveal_strlit("application/pls+xml");
    assert(is_normalized("application/pls+xml"@));
    reveal_strlit("application/poc-settings+xml");
    assert(is_normalized("application/poc-settings+xml"@));
}

/// Rows 144 to 179.
proof fn lemma_keys_normalized_144()
    ensures
        forall|i: int|
            144 <= i < 180 ==> is_normalized((#[trigger] REFERENCE_ENTRIES@[i]).0@),
{
    reveal_strlit("application/postscript");
    assert(is_normalized("application/postscript"@));
    reveal_strlit("application/ppsp-tracker+json");
    assert(is_normalized("application/ppsp-tracker+json"@));
    reveal_strlit("application/problem+json");
    assert(is_normalized("application/problem+json"@));
    reveal_strlit("application/problem+xml");
    assert(is_normalized("application/problem+xml"@));
    reveal_strlit("application/provenance+xml");
    assert(is_normalized("application/provenance+xml"@));
    reveal_strlit("application/prs.xsf+xml");
    assert(is_normalized("application/prs.xsf+xml"@));
    reveal_strlit("application/pskc+xml");
    assert(is_normalized("application/pskc+xml"@));
    reveal_strlit("application/pvd+json");
    assert(is_normalized("application/pvd+json"@));
    reveal_strlit("application/raml+yaml");
    assert(is_normalized("application/raml+yaml"@));
    reveal_strlit("application/rdap+json");
    assert(is_normalized("application/rdap+json"@));
    reveal_strlit("application/rdf+xml");
    assert(is_normalized("application/rdf+xml"@));
    reveal_strlit("application/reginfo+xml");
    assert(is_normalized("application/reginfo+xml"@));
    reveal_strlit("application/reputon+json");
    assert(is_normalized("application/reputon+json"@));
    reveal_strlit("application/resource-lists+xml");
    assert(is_normalized("application/resource-lists+xml"@));
    reveal_strlit("application/resource-lists-diff+xml");
    assert(is_normalized("application/resource-lists-diff+xml"@));
    reveal_strlit("application/rfc+xml");
    assert(is_normalized("application/rfc+xml"@));
    reveal_strlit("application/rlmi+xml");
    assert(is_normalized("application/rlmi+xml"@));
    reveal_strlit("application/rls-services+xml");
    assert(is_normalized("application/rls-services+xml"@));
    reveal_strlit("application/route-apd+xml");
    assert(is_normalized("application/route-apd+xml"@));
    reveal_strlit("application/route-s-tsid+xml");
    assert(is_normalized("application/route-s-tsid+xml"@));
    reveal_strlit("application/route-usd+xml");
    assert(is_normalized("application/route-usd+xml"@));
    reveal_strlit("application/rsd+xml");
    assert(is_normalized("application/rsd+xml"@));
    reveal_strlit("application/rss+xml");
    assert(is_normalized("application/rss+xml"@));
    reveal_strlit("application/rtf");
    assert(is_normalized("application/rtf"@));
    reveal_strlit("application/samlassertion+xml");
    assert(is_normalized("application/samlassertion+xml"@));
    reveal_strlit("application/samlmetadata+xml");
    assert(is_normalized("application/samlmetadata+xml"@));
    reveal_strlit("application/sarif+json");
    assert(is_normalized("application/sarif+json"@));
    reveal_strlit("application/sarif-external-properties+json");
    assert(is_normalized("application/sarif-external-properties+json"@));
    reveal_strlit("application/sbml+xml");
    assert(is_normalized("application/sbml+xml"@));
    reveal_strlit("application/scaip+xml");
    assert(is_normalized("application/scaip+xml"@));
    reveal_strlit("application/scim+json");
    assert(is_normalized("application/scim+json"@));
    reveal_strlit("application/senml+json");
    assert(is_normalized("application/senml+json"@));
    reveal_strlit("application/senml+xml");
    assert(is_normalized("application/senml+xml"@));
    reveal_strlit("application/senml-etch+json");
    assert(is_normalized("application/senml-etch+json"@));
    reveal_strlit("application/sensml+json");
    assert(is_normalized("application/sensml+json"@));
    reveal_strlit("application/sensml+xml");
    assert(is_normalized("application/sensml+xml"@));
}

/// Rows 180 to 215.
proof fn lemma_keys_normalized_180()
    ensures
        forall|i: int|
            180 <= i < 216 ==> is_normalized((#[trigger] REFERENCE_ENTRIES@[i]).0@),
{
    reveal_strlit("application/sep+xml");
    assert(is_normalized("application/sep+xml"@));
    reveal_strlit("application/shf+xml");
    assert(is_normalized("application/shf+xml"@));
    reveal_strlit("application/simple-filter+xml");
    assert(is_normalized("application/simple-filter+xml"@));
    reveal_strlit("application/smil+xml");
    assert(is_normalized("application/smil+xml"@));
    reveal_strlit("application/soap+xml");
    assert(is_normalized("application/soap+xml"@));
    reveal_strlit("application/sparql-results+xml");
    assert(is_normalized("application/sparql-results+xml"@));
    reveal_strlit("application/spirits-event+xml");
    assert(is_normalized("application/spirits-event+xml"@));
    reveal_strlit("application/srgs+xml");
    assert(is_normalized("application/srgs+xml"@));
    reveal_strlit("application/sru+xml");
    assert(is_normalized("application/sru+xml"@));
    reveal_strlit("application/ssdl+xml");
    assert(is_normalized("application/ssdl+xml"@));
    reveal_strlit("application/ssml+xml");
    assert(is_normalized("application/ssml+xml"@));
    reveal_strlit("application/stix+json");
    assert(is_normalized("application/stix+json"@));
    reveal_strlit("application/swid+xml");
    assert(is_normalized("application/swid+xml"@));
    reveal_strlit("application/tar");
    assert(is_normalized("application/tar"@));
    reveal_strlit("application/taxii+json");
    assert(is_normalized("application/taxii+json"@));
    reveal_strlit("application/td+json");
    assert(is_normalized("application/td+json"@));
    reveal_strlit("application/tei+xml");
    assert(is_normalized("application/tei+xml"@));
    reveal_strlit("application/thraud+xml");
    assert(is_normalized("application/thraud+xml"@));
    reveal_strlit("application/tlsrpt+json");
    assert(is_normalized("application/tlsrpt+json"@));
    reveal_strlit("application/toml");
    assert(is_normalized("application/toml"@));
    reveal_strlit("application/ttml+xml");
    assert(is_normalized("application/ttml+xml"@));
    reveal_strlit("application/urc-grpsheet+xml");
    assert(is_normalized("application/urc-grpsheet+xml"@));
    reveal_strlit("application/urc-ressheet+xml");
    assert(is_normalized("application/urc-ressheet+xml"@));
    reveal_strlit("application/urc-targetdesc+xml");
    assert(is_normalized("application/urc-targetdesc+xml"@));
    reveal_strlit("application/urc-uisocketdesc+xml");
    assert(is_normalized("application/urc-uisocketdesc+xml"@));
    reveal_strlit("application/vcard+json");
    assert(is_normalized("application/vcard+json"@));
    reveal_strlit("application/vcard+xml");
    assert(is_normalized("application/vcard+xml"@));
    reveal_strlit("application/vnd.1000minds.decision-model+xml");
    assert(is_normalized("application/vnd.1000minds.decision-model+xml"@));
    reveal_strlit("application/vnd.3gpp-prose+xml");
    assert(is_normalized("application/vnd.3gpp-prose+xml"@));
    reveal_strlit("application/vnd.3gpp-prose-pc3ch+xml");
    assert(is_normalized("application/vnd.3gpp-prose-pc3ch+xml"@));
    reveal_strlit("application/vnd.3gpp.access-transfer-events+xml");
    assert(is_normalized("application/vnd.3gpp.access-transfer-events+xml"@));
    reveal_strlit("application/vnd.3gpp.bsf+xml");
    assert(is_normalized("application/vnd.3gpp.bsf+xml"@));
    reveal_strlit("application/vnd.3gpp.gmop+xml");
    assert(is_normalized("application/vnd.3gpp.gmop+xml"@));
    reveal_strlit("application/vnd.3gpp.mcdata-affiliation-command+xml");
    assert(is_normalized("application/vnd.3gpp.mcdata-affiliation-command+xml"@));
    reveal_strlit("application/vnd.3gpp.mcdata-info+xml");
    assert(is_normalized("application/vnd.3gpp.mcdata-info+xml"@));
    reveal_strlit("application/vnd.3gpp.mcdata-service-config+xml");
    assert(is_normalized("application/vnd.3gpp.mcdata-service-config+xml"@));
}

/// Rows 216 to 251.
proof fn lemma_keys_normalized_216()
    ensures
        forall|i: int|
            216 <= i < 252 ==> is_normalized((#[trigger] REFERENCE_ENTRIES@[i]).0@),
{
    reveal_strlit("application/vnd.3gpp.mcdata-ue-config+xml");
    assert(is_normalized("application/vnd.3gpp.mcdata-ue-config+xml"@));
    reveal_strlit("application/vnd.3gpp.mcdata-user-profile+xml");
    assert(is_normalized("application/vnd.3gpp.mcdata-user-profile+xml"@));
    reveal_strlit("application/vnd.3gpp.mcptt-affiliation-command+xml");
    assert(is_normalized("application/vnd.3gpp.mcptt-affiliation-command+xml"@));
    reveal_strlit("application/vnd.3gpp.mcptt-floor-request+xml");
    assert(is_normalized("application/vnd.3gpp.mcptt-floor-request+xml"@));
    reveal_strlit("application/vnd.3gpp.mcptt-info+xml");
    assert(is_normalized("application/vnd.3gpp.mcptt-info+xml"@));
    reveal_strlit("application/vnd.3gpp.mcptt-location-info+xml");
    assert(is_normalized("application/vnd.3gpp.mcptt-location-info+xml"@));
    reveal_strlit("application/vnd.3gpp.mcptt-mbms-usage-info+xml");
    assert(is_normalized("application/vnd.3gpp.mcptt-mbms-usage-info+xml"@));
    reveal_strlit("application/vnd.3gpp.mcptt-service-config+xml");
    assert(is_normalized("application/vnd.3gpp.mcptt-service-config+xml"@));
    reveal_strlit("application/vnd.3gpp.mcptt-signed+xml");
    assert(is_normalized("application/vnd.3gpp.mcptt-signed+xml"@));
    reveal_strlit("application/vnd.3gpp.mcptt-ue-config+xml");
    assert(is_normalized("application/vnd.3gpp.mcptt-ue-config+xml"@));
    reveal_strlit("application/vnd.3gpp.mcptt-ue-init-config+xml");
    assert(is_normalized("application/vnd.3gpp.mcptt-ue-init-config+xml"@));
    reveal_strlit("application/vnd.3gpp.mcptt-user-profile+xml");
    assert(is_normalized("application/vnd.3gpp.mcptt-user-profile+xml"@));
    reveal_strlit("application/vnd.3gpp.mcvideo-affiliation-command+xml");
    assert(is_normalized("application/vnd.3gpp.mcvideo-affiliation-command+xml"@));
    reveal_strlit("application/vnd.3gpp.mcvideo-affiliation-info+xml");
    assert(is_normalized("application/vnd.3gpp.mcvideo-affiliation-info+xml"@));
    reveal_strlit("application/vnd.3gpp.mcvideo-info+xml");
    assert(is_normalized("application/vnd.3gpp.mcvideo-info+xml"@));
    reveal_strlit("application/vnd.3gpp.mcvideo-location-info+xml");
    assert(is_normalized("application/vnd.3gpp.mcvideo-location-info+xml"@));
    reveal_strlit("application/vnd.3gpp.mcvideo-mbms-usage-info+xml");
    assert(is_normalized("application/vnd.3gpp.mcvideo-mbms-usage-info+xml"@));
    reveal_strlit("application/vnd.3gpp.mcvideo-service-config+xml");
    assert(is_normalized("application/vnd.3gpp.mcvideo-service-config+xml"@));
    reveal_strlit("application/vnd.3gpp.mcvideo-transmission-request+xml");
    assert(is_normalized("application/vnd.3gpp.mcvideo-transmission-request+xml"@));
    reveal_strlit("application/vnd.3gpp.mcvideo-ue-config+xml");
    assert(is_normalized("application/vnd.3gpp.mcvideo-ue-config+xml"@));
    reveal_strlit("application/vnd.3gpp.mcvideo-user-profile+xml");
    assert(is_normalized("application/vnd.3gpp.mcvideo-user-profile+xml"@));
    reveal_strlit("application/vnd.3gpp.mid-call+xml");
    assert(is_normalized("application/vnd.3gpp.mid-call+xml"@));
    reveal_strlit("application/vnd.3gpp.sms+xml");
    assert(is_normalized("application/vnd.3gpp.sms+xml"@));
    reveal_strlit("application/vnd.3gpp.srvcc-ext+xml");
    assert(is_normalized("application/vnd.3gpp.srvcc-ext+xml"@));
    reveal_strlit("application/vnd.3gpp.srvcc-info+xml");
    assert(is_normalized("application/vnd.3gpp.srvcc-info+xml"@));
    reveal_strlit("application/vnd.3gpp.state-and-event-info+xml");
    assert(is_normalized("application/vnd.3gpp.state-and-event-info+xml"@));
    reveal_strlit("application/vnd.3gpp.ussd+xml");
    assert(is_normalized("application/vnd.3gpp.ussd+xml"@));
    reveal_strlit("application/vnd.3gpp2.bcmcsinfo+xml");
    assert(is_normalized("application/vnd.3gpp2.bcmcsinfo+xml"@));
    reveal_strlit("application/vnd.adobe.xdp+xml");
    assert(is_normalized("application/vnd.adobe.xdp+xml"@));
    reveal_strlit("application/vnd.amadeus+json");
    assert(is_normalized("application/vnd.amadeus+json"@));
    reveal_strlit("application/vnd.amundsen.maze+xml");
    assert(is_normalized("application/vnd.amundsen.maze+xml"@));
    reveal_strlit("application/vnd.api+json");
    assert(is_normalized("application/vnd.api+json"@));
    reveal_strlit("application/vnd.aplextor.warrp+json");
    assert(is_normalized("application/vnd.aplextor.warrp+json"@));
    reveal_strlit("application/vnd.apothekende.reservation+json");
    assert(is_normalized("application/vnd.apothekende.reservation+json"@));
    reveal_strlit("application/vnd.apple.installer+xml");
    assert(is_normalized("application/vnd.apple.installer+xml"@));
    reveal_strlit("application/vnd.artisan+json");
    assert(is_normalized("application/vnd.artisan+json"@));
}

/// Rows 252 to 287.
proof fn lemma_keys_normalized_252()
    ensures
        forall|i: int|
            252 <= i < 288 ==> is_normalized((#[trigger] REFERENCE_ENTRIES@[i]).0@),
{
    reveal_strlit("application/vnd.avalon+json");
    assert(is_normalized("application/vnd.avalon+json"@));
    reveal_strlit("application/vnd.avistar+xml");
    assert(is_normalized("application/vnd.avistar+xml"@));
    reveal_strlit("application/vnd.balsamiq.bmml+xml");
    assert(is_normalized("application/vnd.balsamiq.bmml+xml"@));
    reveal_strlit("application/vnd.bbf.usp.msg+json");
    assert(is_normalized("application/vnd.bbf.usp.msg+json"@));
    reveal_strlit("application/vnd.bekitzur-stech+json");
    assert(is_normalized("application/vnd.bekitzur-stech+json"@));
    reveal_strlit("application/vnd.biopax.rdf+xml");
    assert(is_normalized("application/vnd.biopax.rdf+xml"@));
    reveal_strlit("application/vnd.byu.uapi+json");
    assert(is_normalized("application/vnd.byu.uapi+json"@));
    reveal_strlit("application/vnd.capasystems-pg+json");
    assert(is_normalized("application/vnd.capasystems-pg+json"@));
    reveal_strlit("application/vnd.chemdraw+xml");
    assert(is_normalized("application/vnd.chemdraw+xml"@));
    reveal_strlit("application/vnd.citationstyles.style+xml");
    assert(is_normalized("application/vnd.citationstyles.style+xml"@));
    reveal_strlit("application/vnd.collection+json");
    assert(is_normalized("application/vnd.collection+json"@));
    reveal_strlit("application/vnd.collection.doc+json");
    assert(is_normalized("application/vnd.collection.doc+json"@));
    reveal_strlit("application/vnd.collection.next+json");
    assert(is_normalized("application/vnd.collection.next+json"@));
    reveal_strlit("application/vnd.coreos.ignition+json");
    assert(is_normalized("application/vnd.coreos.ignition+json"@));
    reveal_strlit("application/vnd.criticaltools.wbs+xml");
    assert(is_normalized("application/vnd.criticaltools.wbs+xml"@));
    reveal_strlit("application/vnd.cryptii.pipe+json");
    assert(is_normalized("application/vnd.cryptii.pipe+json"@));
    reveal_strlit("application/vnd.ctct.ws+xml");
    assert(is_normalized("application/vnd.ctct.ws+xml"@));
    reveal_strlit("application/vnd.cyan.dean.root+xml");
    assert(is_normalized("application/vnd.cyan.dean.root+xml"@));
    reveal_strlit("application/vnd.cyclonedx+json");
    assert(is_normalized("application/vnd.cyclonedx+json"@));
    reveal_strlit("application/vnd.cyclonedx+xml");
    assert(is_normalized("application/vnd.cyclonedx+xml"@));
    reveal_strlit("application/vnd.dart");
    assert(is_normalized("application/vnd.dart"@));
    reveal_strlit("application/vnd.datapackage+json");
    assert(is_normalized("application/vnd.datapackage+json"@));
    reveal_strlit("application/vnd.dataresource+json");
    assert(is_normalized("application/vnd.dataresource+json"@));
    reveal_strlit("application/vnd.dece.ttml+xml");
    assert(is_normalized("application/vnd.dece.ttml+xml"@));
    reveal_strlit("application/vnd.dm.delegation+xml");
    assert(is_normalized("application/vnd.dm.delegation+xml"@));
    reveal_strlit("application/vnd.document+json");
    assert(is_normalized("application/vnd.document+json"@));
    reveal_strlit("application/vnd.drive+json");
    assert(is_normalized("application/vnd.drive+json"@));
    reveal_strlit("application/vnd.dvb.dvbisl+xml");
    assert(is_normalized("application/vnd.dvb.dvbisl+xml"@));
    reveal_strlit("application/vnd.dvb.notif-aggregate-root+xml");
    assert(is_normalized("application/vnd.dvb.notif-aggregate-root+xml"@));
    reveal_strlit("application/vnd.dvb.notif-container+xml");
    assert(is_normalized("application/vnd.dvb.notif-container+xml"@));
    reveal_strlit("application/vnd.dvb.notif-generic+xml");
    assert(is_normalized("application/vnd.dvb.notif-generic+xml"@));
    reveal_strlit("application/vnd.dvb.notif-ia-msglist+xml");
    assert(is_normalized("application/vnd.dvb.notif-ia-msglist+xml"@));
    reveal_strlit("application/vnd.dvb.notif-ia-registration-request+xml");
    assert(is_normalized("application/vnd.dvb.notif-ia-registration-request+xml"@));
    reveal_strlit("application/vnd.dvb.notif-ia-registration-response+xml");
    assert(is_normalized("application/vnd.dvb.notif-ia-registration-response+xml"@));
    reveal_strlit("application/vnd.dvb.notif-init+xml");
    assert(is_normalized("application/vnd.dvb.notif-init+xml"@));
    reveal_strlit("application/vnd.emclient.accessrequest+xml");
    assert(is_normalized("application/vnd.emclient.accessrequest+xml"@));
}

/// Rows 288 to 323.
proof fn lemma_keys_normalized_288()
    ensures
        forall|i: int|
            288 <= i < 324 ==> is_normalized((#[trigger] REFERENCE_ENTRIES@[i]).0@),
{
    reveal_strlit("application/vnd.eprints.data+xml");
    assert(is_normalized("application/vnd.eprints.data+xml"@));
    reveal_strlit("application/vnd.eszigno3+xml");
    assert(is_normalized("application/vnd.eszigno3+xml"@));
    reveal_strlit("application/vnd.etsi.aoc+xml");
    assert(is_normalized("application/vnd.etsi.aoc+xml"@));
    reveal_strlit("application/vnd.etsi.cug+xml");
    assert(is_normalized("application/vnd.etsi.cug+xml"@));
    reveal_strlit("application/vnd.etsi.iptvcommand+xml");
    assert(is_normalized("application/vnd.etsi.iptvcommand+xml"@));
    reveal_strlit("application/vnd.etsi.iptvdiscovery+xml");
    assert(is_normalized("application/vnd.etsi.iptvdiscovery+xml"@));
    reveal_strlit("application/vnd.etsi.iptvprofile+xml");
    assert(is_normalized("application/vnd.etsi.iptvprofile+xml"@));
    reveal_strlit("application/vnd.etsi.iptvsad-bc+xml");
    assert(is_normalized("application/vnd.etsi.iptvsad-bc+xml"@));
    reveal_strlit("application/vnd.etsi.iptvsad-cod+xml");
    assert(is_normalized("application/vnd.etsi.iptvsad-cod+xml"@));
    reveal_strlit("application/vnd.etsi.iptvsad-npvr+xml");
    assert(is_normalized("application/vnd.etsi.iptvsad-npvr+xml"@));
    reveal_strlit("application/vnd.etsi.iptvservice+xml");
    assert(is_normalized("application/vnd.etsi.iptvservice+xml"@));
    reveal_strlit("application/vnd.etsi.iptvsync+xml");
    assert(is_normalized("application/vnd.etsi.iptvsync+xml"@));
    reveal_strlit("application/vnd.etsi.iptvueprofile+xml");
    assert(is_normalized("application/vnd.etsi.iptvueprofile+xml"@));
    reveal_strlit("application/vnd.etsi.mcid+xml");
    assert(is_normalized("application/vnd.etsi.mcid+xml"@));
    reveal_strlit("application/vnd.etsi.overload-control-policy-dataset+xml");
    assert(is_normalized("application/vnd.etsi.overload-control-policy-dataset+xml"@));
    reveal_strlit("application/vnd.etsi.pstn+xml");
    assert(is_normalized("application/vnd.etsi.pstn+xml"@));
    reveal_strlit("application/vnd.etsi.sci+xml");
    assert(is_normalized("application/vnd.etsi.sci+xml"@));
    reveal_strlit("application/vnd.etsi.simservs+xml");
    assert(is_normalized("application/vnd.etsi.simservs+xml"@));
    reveal_strlit("application/vnd.etsi.tsl+xml");
    assert(is_normalized("application/vnd.etsi.tsl+xml"@));
    reveal_strlit("application/vnd.fujifilm.fb.jfi+xml");
    assert(is_normalized("application/vnd.fujifilm.fb.jfi+xml"@));
    reveal_strlit("application/vnd.futoin+json");
    assert(is_normalized("application/vnd.futoin+json"@));
    reveal_strlit("application/vnd.gentics.grd+json");
    assert(is_normalized("application/vnd.gentics.grd+json"@));
    reveal_strlit("application/vnd.geo+json");
    assert(is_normalized("application/vnd.geo+json"@));
    reveal_strlit("application/vnd.geocube+xml");
    assert(is_normalized("application/vnd.geocube+xml"@));
    reveal_strlit("application/vnd.google-earth.kml+xml");
    assert(is_normalized("application/vnd.google-earth.kml+xml"@));
    reveal_strlit("application/vnd.gov.sk.e-form+xml");
    assert(is_normalized("application/vnd.gov.sk.e-form+xml"@));
    reveal_strlit("application/vnd.gov.sk.xmldatacontainer+xml");
    assert(is_normalized("application/vnd.gov.sk.xmldatacontainer+xml"@));
    reveal_strlit("application/vnd.hal+json");
    assert(is_normalized("application/vnd.hal+json"@));
    reveal_strlit("application/vnd.hal+xml");
    assert(is_normalized("application/vnd.hal+xml"@));
    reveal_strlit("application/vnd.handheld-entertainment+xml");
    assert(is_normalized("application/vnd.handheld-entertainment+xml"@));
    reveal_strlit("application/vnd.hc+json");
    assert(is_normalized("application/vnd.hc+json"@));
    reveal_strlit("application/vnd.heroku+json");
    assert(is_normalized("application/vnd.heroku+json"@));
    reveal_strlit("application/vnd.hyper+json");
    assert(is_normalized("application/vnd.hyper+json"@));
    reveal_strlit("application/vnd.hyper-item+json");
    assert(is_normalized("application/vnd.hyper-item+json"@));
    reveal_strlit("application/vnd.hyperdrive+json");
    assert(is_normalized("application/vnd.hyperdrive+json"@));
    reveal_strlit("application/vnd.ims.lis.v2.result+json");
    assert(is_normalized("application/vnd.ims.lis.v2.result+json"@));
}

/// Rows 324 to 359.
proof fn lemma_keys_normalized_324()
    ensures
        forall|i: int|
            324 <= i < 360 ==> is_normalized((#[trigger] REFERENCE_ENTRIES@[i]).0@),
{
    reveal_strlit("application/vnd.ims.lti.v2.toolconsumerprofile+json");
    assert(is_normalized("application/vnd.ims.lti.v2.toolconsumerprofile+json"@));
    reveal_strlit("application/vnd.ims.lti.v2.toolproxy+json");
    assert(is_normalized("application/vnd.ims.lti.v2.toolproxy+json"@));
    reveal_strlit("application/vnd.ims.lti.v2.toolproxy.id+json");
    assert(is_normalized("application/vnd.ims.lti.v2.toolproxy.id+json"@));
    reveal_strlit("application/vnd.ims.lti.v2.toolsettings+json");
    assert(is_normalized("application/vnd.ims.lti.v2.toolsettings+json"@));
    reveal_strlit("application/vnd.ims.lti.v2.toolsettings.simple+json");
    assert(is_normalized("application/vnd.ims.lti.v2.toolsettings.simple+json"@));
    reveal_strlit("application/vnd.informedcontrol.rms+xml");
    assert(is_normalized("application/vnd.informedcontrol.rms+xml"@));
    reveal_strlit("application/vnd.infotech.project+xml");
    assert(is_normalized("application/vnd.infotech.project+xml"@));
    reveal_strlit("application/vnd.iptc.g2.catalogitem+xml");
    assert(is_normalized("application/vnd.iptc.g2.catalogitem+xml"@));
    reveal_strlit("application/vnd.iptc.g2.conceptitem+xml");
    assert(is_normalized("application/vnd.iptc.g2.conceptitem+xml"@));
    reveal_strlit("application/vnd.iptc.g2.knowledgeitem+xml");
    assert(is_normalized("application/vnd.iptc.g2.knowledgeitem+xml"@));
    reveal_strlit("application/vnd.iptc.g2.newsitem+xml");
    assert(is_normalized("application/vnd.iptc.g2.newsitem+xml"@));
    reveal_strlit("application/vnd.iptc.g2.newsmessage+xml");
    assert(is_normalized("application/vnd.iptc.g2.newsmessage+xml"@));
    reveal_strlit("application/vnd.iptc.g2.packageitem+xml");
    assert(is_normalized("application/vnd.iptc.g2.packageitem+xml"@));
    reveal_strlit("application/vnd.iptc.g2.planningitem+xml");
    assert(is_normalized("application/vnd.iptc.g2.planningitem+xml"@));
    reveal_strlit("application/vnd.irepository.package+xml");
    assert(is_normalized("application/vnd.irepository.package+xml"@));
    reveal_strlit("application/vnd.las.las+json");
    assert(is_normalized("application/vnd.las.las+json"@));
    reveal_strlit("application/vnd.las.las+xml");
    assert(is_normalized("application/vnd.las.las+xml"@));
    reveal_strlit("application/vnd.leap+json");
    assert(is_normalized("application/vnd.leap+json"@));
    reveal_strlit("application/vnd.liberty-request+xml");
    assert(is_normalized("application/vnd.liberty-request+xml"@));
    reveal_strlit("application/vnd.llamagraphics.life-balance.exchange+xml");
    assert(is_normalized("application/vnd.llamagraphics.life-balance.exchange+xml"@));
    reveal_strlit("application/vnd.marlin.drm.actiontoken+xml");
    assert(is_normalized("application/vnd.marlin.drm.actiontoken+xml"@));
    reveal_strlit("application/vnd.marlin.drm.conftoken+xml");
    assert(is_normalized("application/vnd.marlin.drm.conftoken+xml"@));
    reveal_strlit("application/vnd.marlin.drm.license+xml");
    assert(is_normalized("application/vnd.marlin.drm.license+xml"@));
    reveal_strlit("application/vnd.mason+json");
    assert(is_normalized("application/vnd.mason+json"@));
    reveal_strlit("application/vnd.micro+json");
    assert(is_normalized("application/vnd.micro+json"@));
    reveal_strlit("application/vnd.miele+json");
    assert(is_normalized("application/vnd.miele+json"@));
    reveal_strlit("application/vnd.mozilla.xul+xml");
    assert(is_normalized("application/vnd.mozilla.xul+xml"@));
    reveal_strlit("application/vnd.ms-fontobject");
    assert(is_normalized("application/vnd.ms-fontobject"@));
    reveal_strlit("application/vnd.ms-office.activex+xml");
    assert(is_normalized("application/vnd.ms-office.activex+xml"@));
    reveal_strlit("application/vnd.ms-opentype");
    assert(is_normalized("application/vnd.ms-opentype"@));
    reveal_strlit("application/vnd.ms-playready.initiator+xml");
    assert(is_normalized("application/vnd.ms-playready.initiator+xml"@));
    reveal_strlit("application/vnd.ms-printdevicecapabilities+xml");
    assert(is_normalized("application/vnd.ms-printdevicecapabilities+xml"@));
    reveal_strlit("application/vnd.ms-printing.printticket+xml");
    assert(is_normalized("application/vnd.ms-printing.printticket+xml"@));
    reveal_strlit("application/vnd.ms-printschematicket+xml");
    assert(is_normalized("application/vnd.ms-printschematicket+xml"@));
    reveal_strlit("application/vnd.nearst.inv+json");
    assert(is_normalized("application/vnd.nearst.inv+json"@));
    reveal_strlit("application/vnd.nokia.conml+xml");
    assert(is_normalized("application/vnd.nokia.conml+xml"@));
}

/// Rows 360 to 395.
proof fn lemma_keys_normalized_360()
    ensures
        forall|i: int|
            360 <= i < 396 ==> is_normalized((#[trigger] REFERENCE_ENTRIES@[i]).0@),
{
    reveal_strlit("application/vnd.nokia.iptv.config+xml");
    assert(is_normalized("application/vnd.nokia.iptv.config+xml"@));
    reveal_strlit("application/vnd.nokia.landmark+xml");
    assert(is_normalized("application/vnd.nokia.landmark+xml"@));
    reveal_strlit("application/vnd.nokia.landmarkcollection+xml");
    assert(is_normalized("application/vnd.nokia.landmarkcollection+xml"@));
    reveal_strlit("application/vnd.nokia.n-gage.ac+xml");
    assert(is_normalized("application/vnd.nokia.n-gage.ac+xml"@));
    reveal_strlit("application/vnd.nokia.pcd+xml");
    assert(is_normalized("application/vnd.nokia.pcd+xml"@));
    reveal_strlit("application/vnd.oci.image.manifest.v1+json");
    assert(is_normalized("application/vnd.oci.image.manifest.v1+json"@));
    reveal_strlit("application/vnd.oftn.l10n+json");
    assert(is_normalized("application/vnd.oftn.l10n+json"@));
    reveal_strlit("application/vnd.oipf.contentaccessdownload+xml");
    assert(is_normalized("application/vnd.oipf.contentaccessdownload+xml"@));
    reveal_strlit("application/vnd.oipf.contentaccessstreaming+xml");
    assert(is_normalized("application/vnd.oipf.contentaccessstreaming+xml"@));
    reveal_strlit("application/vnd.oipf.dae.svg+xml");
    assert(is_normalized("application/vnd.oipf.dae.svg+xml"@));
    reveal_strlit("application/vnd.oipf.dae.xhtml+xml");
    assert(is_normalized("application/vnd.oipf.dae.xhtml+xml"@));
    reveal_strlit("application/vnd.oipf.mippvcontrolmessage+xml");
    assert(is_normalized("application/vnd.oipf.mippvcontrolmessage+xml"@));
    reveal_strlit("application/vnd.oipf.spdiscovery+xml");
    assert(is_normalized("application/vnd.oipf.spdiscovery+xml"@));
    reveal_strlit("application/vnd.oipf.spdlist+xml");
    assert(is_normalized("application/vnd.oipf.spdlist+xml"@));
    reveal_strlit("application/vnd.oipf.ueprofile+xml");
    assert(is_normalized("application/vnd.oipf.ueprofile+xml"@));
    reveal_strlit("application/vnd.oipf.userprofile+xml");
    assert(is_normalized("application/vnd.oipf.userprofile+xml"@));
    reveal_strlit("application/vnd.oma.bcast.associated-procedure-parameter+xml");
    assert(is_normalized("application/vnd.oma.bcast.associated-procedure-parameter+xml"@));
    reveal_strlit("application/vnd.oma.bcast.drm-trigger+xml");
    assert(is_normalized("application/vnd.oma.bcast.drm-trigger+xml"@));
    reveal_strlit("application/vnd.oma.bcast.imd+xml");
    assert(is_normalized("application/vnd.oma.bcast.imd+xml"@));
    reveal_strlit("application/vnd.oma.bcast.notification+xml");
    assert(is_normalized("application/vnd.oma.bcast.notification+xml"@));
    reveal_strlit("application/vnd.oma.bcast.sgdd+xml");
    assert(is_normalized("application/vnd.oma.bcast.sgdd+xml"@));
    reveal_strlit("application/vnd.oma.bcast.smartcard-trigger+xml");
    assert(is_normalized("application/vnd.oma.bcast.smartcard-trigger+xml"@));
    reveal_strlit("application/vnd.oma.bcast.sprov+xml");
    assert(is_normalized("application/vnd.oma.bcast.sprov+xml"@));
    reveal_strlit("application/vnd.oma.cab-address-book+xml");
    assert(is_normalized("application/vnd.oma.cab-address-book+xml"@));
    reveal_strlit("application/vnd.oma.cab-feature-handler+xml");
    assert(is_normalized("application/vnd.oma.cab-feature-handler+xml"@));
    reveal_strlit("application/vnd.oma.cab-pcc+xml");
    assert(is_normalized("application/vnd.oma.cab-pcc+xml"@));
    reveal_strlit("application/vnd.oma.cab-subs-invite+xml");
    assert(is_normalized("application/vnd.oma.cab-subs-invite+xml"@));
    reveal_strlit("application/vnd.oma.cab-user-prefs+xml");
    assert(is_normalized("application/vnd.oma.cab-user-prefs+xml"@));
    reveal_strlit("application/vnd.oma.dd2+xml");
    assert(is_normalized("application/vnd.oma.dd2+xml"@));
    reveal_strlit("application/vnd.oma.drm.risd+xml");
    assert(is_normalized("application/vnd.oma.drm.risd+xml"@));
    reveal_strlit("application/vnd.oma.group-usage-list+xml");
    assert(is_normalized("application/vnd.oma.group-usage-list+xml"@));
    reveal_strlit("application/vnd.oma.lwm2m+json");
    assert(is_normalized("application/vnd.oma.lwm2m+json"@));
    reveal_strlit("application/vnd.oma.pal+xml");
    assert(is_normalized("application/vnd.oma.pal+xml"@));
    reveal_strlit("application/vnd.oma.poc.detailed-progress-report+xml");
    assert(is_normalized("application/vnd.oma.poc.detailed-progress-report+xml"@));
    reveal_strlit("application/vnd.oma.poc.final-report+xml");
    assert(is_normalized("application/vnd.oma.poc.final-report+xml"@));
    reveal_strlit("application/vnd.oma.poc.groups+xml");
    assert(is_normalized("application/vnd.oma.poc.groups+xml"@));
}

/// Rows 396 to 431.
proof fn lemma_keys_normalized_396()
    ensures
        forall|i: int|
            396 <= i < 432 ==> is_normalized((#[trigger] REFERENCE_ENTRIES@[i]).0@),
{
    reveal_strlit("application/vnd.oma.poc.invocation-descriptor+xml");
    assert(is_normalized("application/vnd.oma.poc.invocation-descriptor+xml"@));
    reveal_strlit("application/vnd.oma.poc.optimized-progress-report+xml");
    assert(is_normalized("application/vnd.oma.poc.optimized-progress-report+xml"@));
    reveal_strlit("application/vnd.oma.scidm.messages+xml");
    assert(is_normalized("application/vnd.oma.scidm.messages+xml"@));
    reveal_strlit("application/vnd.oma.xcap-directory+xml");
    assert(is_normalized("application/vnd.oma.xcap-directory+xml"@));
    reveal_strlit("application/vnd.omads-email+xml");
    assert(is_normalized("application/vnd.omads-email+xml"@));
    reveal_strlit("application/vnd.omads-file+xml");
    assert(is_normalized("application/vnd.omads-file+xml"@));
    reveal_strlit("application/vnd.omads-folder+xml");
    assert(is_normalized("application/vnd.omads-folder+xml"@));
    reveal_strlit("application/vnd.openblox.game+xml");
    assert(is_normalized("application/vnd.openblox.game+xml"@));
    reveal_strlit("application/vnd.openstreetmap.data+xml");
    assert(is_normalized("application/vnd.openstreetmap.data+xml"@));
    reveal_strlit("application/vnd.openxmlformats-officedocument.custom-properties+xml");
    assert(is_normalized("application/vnd.openxmlformats-officedocument.custom-properties+xml"@));
    reveal_strlit("application/vnd.openxmlformats-officedocument.customxmlproperties+xml");
    assert(is_normalized("application/vnd.openxmlformats-officedocument.customxmlproperties+xml"@));
    reveal_strlit("application/vnd.openxmlformats-officedocument.drawing+xml");
    assert(is_normalized("application/vnd.openxmlformats-officedocument.drawing+xml"@));
    reveal_strlit("application/vnd.openxmlformats-officedocument.drawingml.chart+xml");
    assert(is_normalized("application/vnd.openxmlformats-officedocument.drawingml.chart+xml"@));
    reveal_strlit("application/vnd.openxmlformats-officedocument.drawingml.chartshapes+xml");
    assert(is_normalized(
        "application/vnd.openxmlformats-officedocument.drawingml.chartshapes+xml"@,
    ));
    reveal_strlit("application/vnd.openxmlformats-officedocument.drawingml.diagramcolors+xml");
    assert(is_normalized(
        "application/vnd.openxmlformats-officedocument.drawingml.diagramcolors+xml"@,
    ));
    reveal_strlit("application/vnd.openxmlformats-officedocument.drawingml.diagramdata+xml");
    assert(is_normalized(
        "application/vnd.openxmlformats-officedocument.drawingml.diagramdata+xml"@,
    ));
    reveal_strlit("application/vnd.openxmlformats-officedocument.drawingml.diagramlayout+xml");
    assert(is_normalized(
        "application/vnd.openxmlformats-officedocument.drawingml.diagramlayout+xml"@,
    ));
    reveal_strlit("application/vnd.openxmlformats-officedocument.drawingml.diagramstyle+xml");
    assert(is_normalized(
        "application/vnd.openxmlformats-officedocument.drawingml.diagramstyle+xml"@,
    ));
    reveal_strlit("application/vnd.openxmlformats-officedocument.extended-properties+xml");
    assert(is_normalized("application/vnd.openxmlformats-officedocument.extended-properties+xml"@));
    reveal_strlit("application/vnd.openxmlformats-officedocument.presentationml.commentauthors+xml");
    assert(is_normalized(
        "application/vnd.openxmlformats-officedocument.presentationml.commentauthors+xml"@,
    ));
    reveal_strlit("application/vnd.openxmlformats-officedocument.presentationml.comments+xml");
    assert(is_normalized(
        "application/vnd.openxmlformats-officedocument.presentationml.comments+xml"@,
    ));
    reveal_strlit("application/vnd.openxmlformats-officedocument.presentationml.handoutmaster+xml");
    assert(is_normalized(
        "application/vnd.openxmlformats-officedocument.presentationml.handoutmaster+xml"@,
    ));
    reveal_strlit("application/vnd.openxmlformats-officedocument.presentationml.notesmaster+xml");
    assert(is_normalized(
        "application/vnd.openxmlformats-officedocument.presentationml.notesmaster+xml"@,
    ));
    reveal_strlit("application/vnd.openxmlformats-officedocument.presentationml.notesslide+xml");
    assert(is_normalized(
        "application/vnd.openxmlformats-officedocument.presentationml.notesslide+xml"@,
    ));
    reveal_strlit("application/vnd.openxmlformats-officedocument.presentationml.presentation.main+xml");
    assert(is_normalized(
        "application/vnd.openxmlformats-officedocument.presentationml.presentation.main+xml"@,
    ));
    reveal_strlit("application/vnd.openxmlformats-officedocument.presentationml.presprops+xml");
    assert(is_normalized(
        "application/vnd.openxmlformats-officedocument.presentationml.presprops+xml"@,
    ));
    reveal_strlit("application/vnd.openxmlformats-officedocument.presentationml.slide+xml");
    assert(is_normalized(
        "application/vnd.openxmlformats-officedocument.presentationml.slide+xml"@,
    ));
    reveal_strlit("application/vnd.openxmlformats-officedocument.presentationml.slidelayout+xml");
    assert(is_normalized(
        "application/vnd.openxmlformats-officedocument.presentationml.slidelayout+xml"@,
    ));
    reveal_strlit("application/vnd.openxmlformats-officedocument.presentationml.slidemaster+xml");
    assert(is_normalized(
        "application/vnd.openxmlformats-officedocument.presentationml.slidemaster+xml"@,
    ));
    reveal_strlit("application/vnd.openxmlformats-officedocument.presentationml.slideshow.main+xml");
    assert(is_normalized(
        "application/vnd.openxmlformats-officedocument.presentationml.slideshow.main+xml"@,
    ));
    reveal_strlit("application/vnd.openxmlformats-officedocument.presentationml.slideupdateinfo+xml");
    assert(is_normalized(
        "application/vnd.openxmlformats-officedocument.presentationml.slideupdateinfo+xml"@,
    ));
    reveal_strlit("application/vnd.openxmlformats-officedocument.presentationml.tablestyles+xml");
    assert(is_normalized(
        "application/vnd.openxmlformats-officedocument.presentationml.tablestyles+xml"@,
    ));
    reveal_strlit("application/vnd.openxmlformats-officedocument.presentationml.tags+xml");
    assert(is_normalized("application/vnd.openxmlformats-officedocument.presentationml.tags+xml"@));
    reveal_strlit("application/vnd.openxmlformats-officedocument.presentationml.template.main+xml");
    assert(is_normalized(
        "application/vnd.openxmlformats-officedocument.presentationml.template.main+xml"@,
    ));
    reveal_strlit("application/vnd.openxmlformats-officedocument.presentationml.viewprops+xml");
    assert(is_normalized(
        "application/vnd.openxmlformats-officedocument.presentationml.viewprops+xml"@,
    ));
    reveal_strlit("application/vnd.openxmlformats-officedocument.spreadsheetml.calcchain+xml");
    assert(is_normalized(
        "application/vnd.openxmlformats-officedocument.spreadsheetml.calcchain+xml"@,
    ));
}

/// Rows 432 to 467.
proof fn lemma_keys_normalized_432()
    ensures
        forall|i: int|
            432 <= i < 468 ==> is_normalized((#[trigger] REFERENCE_ENTRIES@[i]).0@),
{
    reveal_strlit("application/vnd.openxmlformats-officedocument.spreadsheetml.chartsheet+xml");
    assert(is_normalized(
        "application/vnd.openxmlformats-officedocument.spreadsheetml.chartsheet+xml"@,
    ));
    reveal_strlit("application/vnd.openxmlformats-officedocument.spreadsheetml.comments+xml");
    assert(is_normalized(
        "application/vnd.openxmlformats-officedocument.spreadsheetml.comments+xml"@,
    ));
    reveal_strlit("application/vnd.openxmlformats-officedocument.spreadsheetml.connections+xml");
    assert(is_normalized(
        "application/vnd.openxmlformats-officedocument.spreadsheetml.connections+xml"@,
    ));
    reveal_strlit("application/vnd.openxmlformats-officedocument.spreadsheetml.dialogsheet+xml");
    assert(is_normalized(
        "application/vnd.openxmlformats-officedocument.spreadsheetml.dialogsheet+xml"@,
    ));
    reveal_strlit("application/vnd.openxmlformats-officedocument.spreadsheetml.externallink+xml");
    assert(is_normalized(
        "application/vnd.openxmlformats-officedocument.spreadsheetml.externallink+xml"@,
    ));
    reveal_strlit("application/vnd.openxmlformats-officedocument.spreadsheetml.pivotcachedefinition+xml");
    assert(is_normalized(
        "application/vnd.openxmlformats-officedocument.spreadsheetml.pivotcachedefinition+xml"@,
    ));
    reveal_strlit("application/vnd.openxmlformats-officedocument.spreadsheetml.pivotcacherecords+xml");
    assert(is_normalized(
        "application/vnd.openxmlformats-officedocument.spreadsheetml.pivotcacherecords+xml"@,
    ));
    reveal_strlit("application/vnd.openxmlformats-officedocument.spreadsheetml.pivottable+xml");
    assert(is_normalized(
        "application/vnd.openxmlformats-officedocument.spreadsheetml.pivottable+xml"@,
    ));
    reveal_strlit("application/vnd.openxmlformats-officedocument.spreadsheetml.querytable+xml");
    assert(is_normalized(
        "application/vnd.openxmlformats-officedocument.spreadsheetml.querytable+xml"@,
    ));
    reveal_strlit("application/vnd.openxmlformats-officedocument.spreadsheetml.revisionheaders+xml");
    assert(is_normalized(
        "application/vnd.openxmlformats-officedocument.spreadsheetml.revisionheaders+xml"@,
    ));
    reveal_strlit("application/vnd.openxmlformats-officedocument.spreadsheetml.revisionlog+xml");
    assert(is_normalized(
        "application/vnd.openxmlformats-officedocument.spreadsheetml.revisionlog+xml"@,
    ));
    reveal_strlit("application/vnd.openxmlformats-officedocument.spreadsheetml.sharedstrings+xml");
    assert(is_normalized(
        "application/vnd.openxmlformats-officedocument.spreadsheetml.sharedstrings+xml"@,
    ));
    reveal_strlit("application/vnd.openxmlformats-officedocument.spreadsheetml.sheet.main+xml");
    assert(is_normalized(
        "application/vnd.openxmlformats-officedocument.spreadsheetml.sheet.main+xml"@,
    ));
    reveal_strlit("application/vnd.openxmlformats-officedocument.spreadsheetml.sheetmetadata+xml");
    assert(is_normalized(
        "application/vnd.openxmlformats-officedocument.spreadsheetml.sheetmetadata+xml"@,
    ));
    reveal_strlit("application/vnd.openxmlformats-officedocument.spreadsheetml.styles+xml");
    assert(is_normalized(
        "application/vnd.openxmlformats-officedocument.spreadsheetml.styles+xml"@,
    ));
    reveal_strlit("application/vnd.openxmlformats-officedocument.spreadsheetml.table+xml");
    assert(is_normalized("application/vnd.openxmlformats-officedocument.spreadsheetml.table+xml"@));
    reveal_strlit("application/vnd.openxmlformats-officedocument.spreadsheetml.tablesinglecells+xml");
    assert(is_normalized(
        "application/vnd.openxmlformats-officedocument.spreadsheetml.tablesinglecells+xml"@,
    ));
    reveal_strlit("application/vnd.openxmlformats-officedocument.spreadsheetml.template.main+xml");
    assert(is_normalized(
        "application/vnd.openxmlformats-officedocument.spreadsheetml.template.main+xml"@,
    ));
    reveal_strlit("application/vnd.openxmlformats-officedocument.spreadsheetml.usernames+xml");
    assert(is_normalized(
        "application/vnd.openxmlformats-officedocument.spreadsheetml.usernames+xml"@,
    ));
    reveal_strlit("application/vnd.openxmlformats-officedocument.spreadsheetml.volatiledependencies+xml");
    assert(is_normalized(
        "application/vnd.openxmlformats-officedocument.spreadsheetml.volatiledependencies+xml"@,
    ));
    reveal_strlit("application/vnd.openxmlformats-officedocument.spreadsheetml.worksheet+xml");
    assert(is_normalized(
        "application/vnd.openxmlformats-officedocument.spreadsheetml.worksheet+xml"@,
    ));
    reveal_strlit("application/vnd.openxmlformats-officedocument.theme+xml");
    assert(is_normalized("application/vnd.openxmlformats-officedocument.theme+xml"@));
    reveal_strlit("application/vnd.openxmlformats-officedocument.themeoverride+xml");
    assert(is_normalized("application/vnd.openxmlformats-officedocument.themeoverride+xml"@));
    reveal_strlit("application/vnd.openxmlformats-officedocument.wordprocessingml.comments+xml");
    assert(is_normalized(
        "application/vnd.openxmlformats-officedocument.wordprocessingml.comments+xml"@,
    ));
    reveal_strlit("application/vnd.openxmlformats-officedocument.wordprocessingml.document.glossary+xml");
    assert(is_normalized(
        "application/vnd.openxmlformats-officedocument.wordprocessingml.document.glossary+xml"@,
    ));
    reveal_strlit("application/vnd.openxmlformats-officedocument.wordprocessingml.document.main+xml");
    assert(is_normalized(
        "application/vnd.openxmlformats-officedocument.wordprocessingml.document.main+xml"@,
    ));
    reveal_strlit("application/vnd.openxmlformats-officedocument.wordprocessingml.endnotes+xml");
    assert(is_normalized(
        "application/vnd.openxmlformats-officedocument.wordprocessingml.endnotes+xml"@,
    ));
    reveal_strlit("application/vnd.openxmlformats-officedocument.wordprocessingml.fonttable+xml");
    assert(is_normalized(
        "application/vnd.openxmlformats-officedocument.wordprocessingml.fonttable+xml"@,
    ));
    reveal_strlit("application/vnd.openxmlformats-officedocument.wordprocessingml.footer+xml");
    assert(is_normalized(
        "application/vnd.openxmlformats-officedocument.wordprocessingml.footer+xml"@,
    ));
    reveal_strlit("application/vnd.openxmlformats-officedocument.wordprocessingml.footnotes+xml");
    assert(is_normalized(
        "application/vnd.openxmlformats-officedocument.wordprocessingml.footnotes+xml"@,
    ));
    reveal_strlit("application/vnd.openxmlformats-officedocument.wordprocessingml.numbering+xml");
    assert(is_normalized(
        "application/vnd.openxmlformats-officedocument.wordprocessingml.numbering+xml"@,
    ));
    reveal_strlit("application/vnd.openxmlformats-officedocument.wordprocessingml.settings+xml");
    assert(is_normalized(
        "application/vnd.openxmlformats-officedocument.wordprocessingml.settings+xml"@,
    ));
    reveal_strlit("application/vnd.openxmlformats-officedocument.wordprocessingml.styles+xml");
    assert(is_normalized(
        "application/vnd.openxmlformats-officedocument.wordprocessingml.styles+xml"@,
    ));
    reveal_strlit("application/vnd.openxmlformats-officedocument.wordprocessingml.template.main+xml");
    assert(is_normalized(
        "application/vnd.openxmlformats-officedocument.wordprocessingml.template.main+xml"@,
    ));
    reveal_strlit("application/vnd.openxmlformats-officedocument.wordprocessingml.websettings+xml");
    assert(is_normalized(
        "application/vnd.openxmlformats-officedocument.wordprocessingml.websettings+xml"@,
    ));
    reveal_strlit("application/vnd.openxmlformats-package.core-properties+xml");
    assert(is_normalized("application/vnd.openxmlformats-package.core-properties+xml"@));
}

/// Rows 468 to 503.
proof fn lemma_keys_normalized_468()
    ensures
        forall|i: int|
            468 <= i < 504 ==> is_normalized((#[trigger] REFERENCE_ENTRIES@[i]).0@),
{
    reveal_strlit("application/vnd.openxmlformats-package.digital-signature-xmlsignature+xml");
    assert(is_normalized(
        "application/vnd.openxmlformats-package.digital-signature-xmlsignature+xml"@,
    ));
    reveal_strlit("application/vnd.openxmlformats-package.relationships+xml");
    assert(is_normalized("application/vnd.openxmlformats-package.relationships+xml"@));
    reveal_strlit("application/vnd.oracle.resource+json");
    assert(is_normalized("application/vnd.oracle.resource+json"@));
    reveal_strlit("application/vnd.otps.ct-kip+xml");
    assert(is_normalized("application/vnd.otps.ct-kip+xml"@));
    reveal_strlit("application/vnd.pagerduty+json");
    assert(is_normalized("application/vnd.pagerduty+json"@));
    reveal_strlit("application/vnd.poc.group-advertisement+xml");
    assert(is_normalized("application/vnd.poc.group-advertisement+xml"@));
    reveal_strlit("application/vnd.pwg-xhtml-print+xml");
    assert(is_normalized("application/vnd.pwg-xhtml-print+xml"@));
    reveal_strlit("application/vnd.radisys.moml+xml");
    assert(is_normalized("application/vnd.radisys.moml+xml"@));
    reveal_strlit("application/vnd.radisys.msml+xml");
    assert(is_normalized("application/vnd.radisys.msml+xml"@));
    reveal_strlit("application/vnd.radisys.msml-audit+xml");
    assert(is_normalized("application/vnd.radisys.msml-audit+xml"@));
    reveal_strlit("application/vnd.radisys.msml-audit-conf+xml");
    assert(is_normalized("application/vnd.radisys.msml-audit-conf+xml"@));
    reveal_strlit("application/vnd.radisys.msml-audit-conn+xml");
    assert(is_normalized("application/vnd.radisys.msml-audit-conn+xml"@));
    reveal_strlit("application/vnd.radisys.msml-audit-dialog+xml");
    assert(is_normalized("application/vnd.radisys.msml-audit-dialog+xml"@));
    reveal_strlit("application/vnd.radisys.msml-audit-stream+xml");
    assert(is_normalized("application/vnd.radisys.msml-audit-stream+xml"@));
    reveal_strlit("application/vnd.radisys.msml-conf+xml");
    assert(is_normalized("application/vnd.radisys.msml-conf+xml"@));
    reveal_strlit("application/vnd.radisys.msml-dialog+xml");
    assert(is_normalized("application/vnd.radisys.msml-dialog+xml"@));
    reveal_strlit("application/vnd.radisys.msml-dialog-base+xml");
    assert(is_normalized("application/vnd.radisys.msml-dialog-base+xml"@));
    reveal_strlit("application/vnd.radisys.msml-dialog-fax-detect+xml");
    assert(is_normalized("application/vnd.radisys.msml-dialog-fax-detect+xml"@));
    reveal_strlit("application/vnd.radisys.msml-dialog-fax-sendrecv+xml");
    assert(is_normalized("application/vnd.radisys.msml-dialog-fax-sendrecv+xml"@));
    reveal_strlit("application/vnd.radisys.msml-dialog-group+xml");
    assert(is_normalized("application/vnd.radisys.msml-dialog-group+xml"@));
    reveal_strlit("application/vnd.radisys.msml-dialog-speech+xml");
    assert(is_normalized("application/vnd.radisys.msml-dialog-speech+xml"@));
    reveal_strlit("application/vnd.radisys.msml-dialog-transform+xml");
    assert(is_normalized("application/vnd.radisys.msml-dialog-transform+xml"@));
    reveal_strlit("application/vnd.recordare.musicxml+xml");
    assert(is_normalized("application/vnd.recordare.musicxml+xml"@));
    reveal_strlit("application/vnd.restful+json");
    assert(is_normalized("application/vnd.restful+json"@));
    reveal_strlit("application/vnd.route66.link66+xml");
    assert(is_normalized("application/vnd.route66.link66+xml"@));
    reveal_strlit("application/vnd.seis+json");
    assert(is_normalized("application/vnd.seis+json"@));
    reveal_strlit("application/vnd.shootproof+json");
    assert(is_normalized("application/vnd.shootproof+json"@));
    reveal_strlit("application/vnd.shopkick+json");
    assert(is_normalized("application/vnd.shopkick+json"@));
    reveal_strlit("application/vnd.siren+json");
    assert(is_normalized("application/vnd.siren+json"@));
    reveal_strlit("application/vnd.software602.filler.form+xml");
    assert(is_normalized("application/vnd.software602.filler.form+xml"@));
    reveal_strlit("application/vnd.solent.sdkm+xml");
    assert(is_normalized("application/vnd.solent.sdkm+xml"@));
    reveal_strlit("application/vnd.sun.wadl+xml");
    assert(is_normalized("application/vnd.sun.wadl+xml"@));
    reveal_strlit("application/vnd.sycle+xml");
    assert(is_normalized("application/vnd.sycle+xml"@));
    reveal_strlit("application/vnd.syncml+xml");
    assert(is_normalized("application/vnd.syncml+xml"@));
    reveal_strlit("application/vnd.syncml.dm+xml");
    assert(is_normalized("application/vnd.syncml.dm+xml"@));
    reveal_strlit("application/vnd.syncml.dmddf+xml");
    assert(is_normalized("application/vnd.syncml.dmddf+xml"@));
}

/// Rows 504 to 539.
proof fn lemma_keys_normalized_504()
    ensures
        forall|i: int|
            504 <= i < 540 ==> is_normalized((#[trigger] REFERENCE_ENTRIES@[i]).0@),
{
    reveal_strlit("application/vnd.syncml.dmtnds+xml");
    assert(is_normalized("application/vnd.syncml.dmtnds+xml"@));
    reveal_strlit("application/vnd.tableschema+json");
    assert(is_normalized("application/vnd.tableschema+json"@));
    reveal_strlit("application/vnd.think-cell.ppttc+json");
    assert(is_normalized("application/vnd.think-cell.ppttc+json"@));
    reveal_strlit("application/vnd.tmd.mediaflex.api+xml");
    assert(is_normalized("application/vnd.tmd.mediaflex.api+xml"@));
    reveal_strlit("application/vnd.uoml+xml");
    assert(is_normalized("application/vnd.uoml+xml"@));
    reveal_strlit("application/vnd.vel+json");
    assert(is_normalized("application/vnd.vel+json"@));
    reveal_strlit("application/vnd.wv.csp+xml");
    assert(is_normalized("application/vnd.wv.csp+xml"@));
    reveal_strlit("application/vnd.wv.ssp+xml");
    assert(is_normalized("application/vnd.wv.ssp+xml"@));
    reveal_strlit("application/vnd.xacml+json");
    assert(is_normalized("application/vnd.xacml+json"@));
    reveal_strlit("application/vnd.xmi+xml");
    assert(is_normalized("application/vnd.xmi+xml"@));
    reveal_strlit("application/vnd.yamaha.openscoreformat.osfpvg+xml");
    assert(is_normalized("application/vnd.yamaha.openscoreformat.osfpvg+xml"@));
    reveal_strlit("application/vnd.zzazz.deck+xml");
    assert(is_normalized("application/vnd.zzazz.deck+xml"@));
    reveal_strlit("application/voicexml+xml");
    assert(is_normalized("application/voicexml+xml"@));
    reveal_strlit("application/voucher-cms+json");
    assert(is_normalized("application/voucher-cms+json"@));
    reveal_strlit("application/wasm");
    assert(is_normalized("application/wasm"@));
    reveal_strlit("application/watcherinfo+xml");
    assert(is_normalized("application/watcherinfo+xml"@));
    reveal_strlit("application/webpush-options+json");
    assert(is_normalized("application/webpush-options+json"@));
    reveal_strlit("application/wsdl+xml");
    assert(is_normalized("application/wsdl+xml"@));
    reveal_strlit("application/wspolicy+xml");
    assert(is_normalized("application/wspolicy+xml"@));
    reveal_strlit("application/x-dtbncx+xml");
    assert(is_normalized("application/x-dtbncx+xml"@));
    reveal_strlit("application/x-dtbook+xml");
    assert(is_normalized("application/x-dtbook+xml"@));
    reveal_strlit("application/x-dtbresource+xml");
    assert(is_normalized("application/x-dtbresource+xml"@));
    reveal_strlit("application/x-httpd-php");
    assert(is_normalized("application/x-httpd-php"@));
    reveal_strlit("application/x-javascript");
    assert(is_normalized("application/x-javascript"@));
    reveal_strlit("application/x-ns-proxy-autoconfig");
    assert(is_normalized("application/x-ns-proxy-autoconfig"@));
    reveal_strlit("application/x-sh");
    assert(is_normalized("application/x-sh"@));
    reveal_strlit("application/x-tar");
    assert(is_normalized("application/x-tar"@));
    reveal_strlit("application/x-virtualbox-hdd");
    assert(is_normalized("application/x-virtualbox-hdd"@));
    reveal_strlit("application/x-virtualbox-ova");
    assert(is_normalized("application/x-virtualbox-ova"@));
    reveal_strlit("application/x-virtualbox-ovf");
    assert(is_normalized("application/x-virtualbox-ovf"@));
    reveal_strlit("application/x-virtualbox-vbox");
    assert(is_normalized("application/x-virtualbox-vbox"@));
    reveal_strlit("application/x-virtualbox-vdi");
    assert(is_normalized("application/x-virtualbox-vdi"@));
    reveal_strlit("application/x-virtualbox-vhd");
    assert(is_normalized("application/x-virtualbox-vhd"@));
    reveal_strlit("application/x-virtualbox-vmdk");
    assert(is_normalized("application/x-virtualbox-vmdk"@));
    reveal_strlit("application/x-web-app-manifest+json");
    assert(is_normalized("application/x-web-app-manifest+json"@));
    reveal_strlit("application/x-www-form-urlencoded");
    assert(is_normalized("application/x-www-form-urlencoded"@));
}

/// Rows 540 to 575.
proof fn lemma_keys_normalized_540()
    ensures
        forall|i: int|
            540 <= i < 576 ==> is_normalized((#[trigger] REFERENCE_ENTRIES@[i]).0@),
{
    reveal_strlit("application/x-xliff+xml");
    assert(is_normalized("application/x-xliff+xml"@));
    reveal_strlit("application/xacml+xml");
    assert(is_normalized("application/xacml+xml"@));
    reveal_strlit("application/xaml+xml");
    assert(is_normalized("application/xaml+xml"@));
    reveal_strlit("application/xcap-att+xml");
    assert(is_normalized("application/xcap-att+xml"@));
    reveal_strlit("application/xcap-caps+xml");
    assert(is_normalized("application/xcap-caps+xml"@));
    reveal_strlit("application/xcap-diff+xml");
    assert(is_normalized("application/xcap-diff+xml"@));
    reveal_strlit("application/xcap-el+xml");
    assert(is_normalized("application/xcap-el+xml"@));
    reveal_strlit("application/xcap-error+xml");
    assert(is_normalized("application/xcap-error+xml"@));
    reveal_strlit("application/xcap-ns+xml");
    assert(is_normalized("application/xcap-ns+xml"@));
    reveal_strlit("application/xcon-conference-info+xml");
    assert(is_normalized("application/xcon-conference-info+xml"@));
    reveal_strlit("application/xcon-conference-info-diff+xml");
    assert(is_normalized("application/xcon-conference-info-diff+xml"@));
    reveal_strlit("application/xenc+xml");
    assert(is_normalized("application/xenc+xml"@));
    reveal_strlit("application/xhtml+xml");
    assert(is_normalized("application/xhtml+xml"@));
    reveal_strlit("application/xhtml-voice+xml");
    assert(is_normalized("application/xhtml-voice+xml"@));
    reveal_strlit("application/xliff+xml");
    assert(is_normalized("application/xliff+xml"@));
    reveal_strlit("application/xml");
    assert(is_normalized("application/xml"@));
    reveal_strlit("application/xml-dtd");
    assert(is_normalized("application/xml-dtd"@));
    reveal_strlit("application/xml-patch+xml");
    assert(is_normalized("application/xml-patch+xml"@));
    reveal_strlit("application/xmpp+xml");
    assert(is_normalized("application/xmpp+xml"@));
    reveal_strlit("application/xop+xml");
    assert(is_normalized("application/xop+xml"@));
    reveal_strlit("application/xproc+xml");
    assert(is_normalized("application/xproc+xml"@));
    reveal_strlit("application/xslt+xml");
    assert(is_normalized("application/xslt+xml"@));
    reveal_strlit("application/xspf+xml");
    assert(is_normalized("application/xspf+xml"@));
    reveal_strlit("application/xv+xml");
    assert(is_normalized("application/xv+xml"@));
    reveal_strlit("application/yang-data+json");
    assert(is_normalized("application/yang-data+json"@));
    reveal_strlit("application/yang-data+xml");
    assert(is_normalized("application/yang-data+xml"@));
    reveal_strlit("application/yang-patch+json");
    assert(is_normalized("application/yang-patch+json"@));
    reveal_strlit("application/yang-patch+xml");
    assert(is_normalized("application/yang-patch+xml"@));
    reveal_strlit("application/yin+xml");
    assert(is_normalized("application/yin+xml"@));
    reveal_strlit("font/otf");
    assert(is_normalized("font/otf"@));
    reveal_strlit("font/ttf");
    assert(is_normalized("font/ttf"@));
    reveal_strlit("image/bmp");
    assert(is_normalized("image/bmp"@));
    reveal_strlit("image/svg+xml");
    assert(is_normalized("image/svg+xml"@));
    reveal_strlit("image/vnd.adobe.photoshop");
    assert(is_normalized("image/vnd.adobe.photoshop"@));
    reveal_strlit("image/x-icon");
    assert(is_normalized("image/x-icon"@));
    reveal_strlit("image/x-ms-bmp");
    assert(is_normalized("image/x-ms-bmp"@));
}

/// Rows 576 to 611.
proof fn lemma_keys_normalized_576()
    ensures
        forall|i: int|
            576 <= i < 612 ==> is_normalized((#[trigger] REFERENCE_ENTRIES@[i]).0@),
{
    reveal_strlit("message/imdn+xml");
    assert(is_normalized("message/imdn+xml"@));
    reveal_strlit("message/rfc822");
    assert(is_normalized("message/rfc822"@));
    reveal_strlit("model/gltf+json");
    assert(is_normalized("model/gltf+json"@));
    reveal_strlit("model/gltf-binary");
    assert(is_normalized("model/gltf-binary"@));
    reveal_strlit("model/vnd.collada+xml");
    assert(is_normalized("model/vnd.collada+xml"@));
    reveal_strlit("model/vnd.moml+xml");
    assert(is_normalized("model/vnd.moml+xml"@));
    reveal_strlit("model/x3d+xml");
    assert(is_normalized("model/x3d+xml"@));
    reveal_strlit("text/cache-manifest");
    assert(is_normalized("text/cache-manifest"@));
    reveal_strlit("text/calender");
    assert(is_normalized("text/calender"@));
    reveal_strlit("text/cmd");
    assert(is_normalized("text/cmd"@));
    reveal_strlit("text/css");
    assert(is_normalized("text/css"@));
    reveal_strlit("text/csv");
    assert(is_normalized("text/csv"@));
    reveal_strlit("text/html");
    assert(is_normalized("text/html"@));
    reveal_strlit("text/javascript");
    assert(is_normalized("text/javascript"@));
    reveal_strlit("text/jsx");
    assert(is_normalized("text/jsx"@));
    reveal_strlit("text/less");
    assert(is_normalized("text/less"@));
    reveal_strlit("text/markdown");
    assert(is_normalized("text/markdown"@));
    reveal_strlit("text/mdx");
    assert(is_normalized("text/mdx"@));
    reveal_strlit("text/n3");
    assert(is_normalized("text/n3"@));
    reveal_strlit("text/plain");
    assert(is_normalized("text/plain"@));
    reveal_strlit("text/richtext");
    assert(is_normalized("text/richtext"@));
    reveal_strlit("text/rtf");
    assert(is_normalized("text/rtf"@));
    reveal_strlit("text/tab-separated-values");
    assert(is_normalized("text/tab-separated-values"@));
    reveal_strlit("text/uri-list");
    assert(is_normalized("text/uri-list"@));
    reveal_strlit("text/vcard");
    assert(is_normalized("text/vcard"@));
    reveal_strlit("text/vtt");
    assert(is_normalized("text/vtt"@));
    reveal_strlit("text/x-gwt-rpc");
    assert(is_normalized("text/x-gwt-rpc"@));
    reveal_strlit("text/x-jquery-tmpl");
    assert(is_normalized("text/x-jquery-tmpl"@));
    reveal_strlit("text/x-markdown");
    assert(is_normalized("text/x-markdown"@));
    reveal_strlit("text/x-org");
    assert(is_normalized("text/x-org"@));
    reveal_strlit("text/x-processing");
    assert(is_normalized("text/x-processing"@));
    reveal_strlit("text/x-suse-ymp");
    assert(is_normalized("text/x-suse-ymp"@));
    reveal_strlit("text/xml");
    assert(is_normalized("text/xml"@));
    reveal_strlit("text/yaml");
    assert(is_normalized("text/yaml"@));
    reveal_strlit("x-shader/x-fragment");
    assert(is_normalized("x-shader/x-fragment"@));
    reveal_strlit("x-shader/x-vertex");
    assert(is_normalized("x-shader/x-vertex"@));
}

/// Every key of the built-in reference data is normalized.
pub proof fn lemma_reference_keys_normalized()
    ensures
        forall|i: int|
            0 <= i < REFERENCE_ENTRIES@.len() ==> is_normalized(
                (#[trigger] REFERENCE_ENTRIES@[i]).0@,
            ),
{
    lemma_keys_normalized_000();
    lemma_keys_normalized_036();
    lemma_keys_normalized_072();
    lemma_keys_normalized_108();
    lemma_keys_normalized_144();
    lemma_keys_normalized_180();
    lemma_keys_normalized_216();
    lemma_keys_normalized_252();
    lemma_keys_normalized_288();
    lemma_keys_normalized_324();
    lemma_keys_normalized_360();
    lemma_keys_normalized_396();
    lemma_keys_normalized_432();
    lemma_keys_normalized_468();
    lemma_keys_normalized_504();
    lemma_keys_normalized_540();
    lemma_keys_normalized_576();
}

} // verus!
