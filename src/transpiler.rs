use vstd::prelude::*;
use crate::builtin_package_definition::{lookup_builtin, BuiltinPkgFunctions};
use crate::text::str_eq;
use crate::pkg_fn_checker::is_builtin_package;
use crate::types::CheckError;

verus! {

/// The target dialects a checked program can be rendered in.
#[derive(Clone, Copy, Debug, PartialEq, Eq, Structural)]
pub enum TranspilerOption {
    /// Groovy for the Katalon test-automation framework.
    Groovy,
}

/// How a function of a package renders in the target dialect.
#[derive(Clone, Debug, PartialEq, Eq)]
pub struct PackageFuncMap {
    pub package_name: String,
    pub func_name: String,
    pub convert: String,
}

/// Builds a [`PackageFuncMap`] from (package, function, rendering).
pub fn pkg_fn_map_mapper(val: (&str, &str, &str)) -> (r: PackageFuncMap)
    ensures
        r.package_name@ == val.0@,
        r.func_name@ == val.1@,
        r.convert@ == val.2@,
{
    PackageFuncMap { package_name: val.0.to_owned(), func_name: val.1.to_owned(), convert: val.2.to_owned() }
}

/// The Groovy template of a built-in function; `{argN}` stands for the
/// rendering of the N-th argument.
pub open spec fn katalon_template(f: BuiltinPkgFunctions) -> Seq<char> {
    match f {
        BuiltinPkgFunctions::NavigateToUrl => "driver.navigate().to({arg1})"@,
        BuiltinPkgFunctions::GetElementByString => "driverExt.getElement().byString({arg1}, {arg2}, {arg3}, {arg4}).untilElementInteractable()"@,
        BuiltinPkgFunctions::ClickElementByString => "driverExt.getElement().byString({arg1}, {arg2}, {arg3}, {arg4}).untilElementInteractable().click()"@,
        BuiltinPkgFunctions::SendTextToElementByString => "driverExt.getElement().byString({arg1}, {arg3}, {arg4}, {arg5}).untilElementInteractable().sendKeys({arg2})"@,
        BuiltinPkgFunctions::ExtUIGetInputFromLabel => "new ExtUIGetter(driver).getInputFromLabel({arg1})"@,
        BuiltinPkgFunctions::ExtUIGetIFrameFromLabel => "new ExtUIGetter(driver).getIFrameFromLabel({arg1})"@,
        BuiltinPkgFunctions::ExtUIGetWindowFromLabel => "new ExtUIGetter(driver).getWindowFromTitle({arg1})"@,
        BuiltinPkgFunctions::ExtUIGetGroupFromLabel => "new ExtUIGetter(driver).getGroupFromTitle({arg1})"@,
        BuiltinPkgFunctions::ExtUIInputDateByLabelExact => "new ExtUIGetter(driver).getInputFromLabel({arg1}).shouldBe().date().sendText({arg2}, false)"@,
        BuiltinPkgFunctions::ExtUIInputHtmlByLabelExact => "new ExtUIGetter(driver).getIFrameFromLabel({arg1}).shouldBe().htmlEditor().sendText({arg2})"@,
        BuiltinPkgFunctions::ExtUIInputNumberTextboxByLabelExact => "new ExtUIGetter(driver).getInputFromLabel({arg1}).shouldBe().numberTextbox().sendText({arg2})"@,
        BuiltinPkgFunctions::ExtUIInputTextboxByLabelExact => "new ExtUIGetter(driver).getInputFromLabel({arg1}).shouldBe().textbox().sendText({arg2})"@,
        BuiltinPkgFunctions::ExtUIInputDropdownUsingTextByLabelExact => "new ExtUIGetter(driver).getInputFromLabel({arg1}).shouldBe().dropdown().selectElementFromText({arg2})"@,
        BuiltinPkgFunctions::ExtUIInputDropdownUsingIndexByLabelExact => "new ExtUIGetter(driver).getInputFromLabel({arg1}).shouldBe().dropdown().selectElementOnIndex({arg2})"@,
        BuiltinPkgFunctions::ExtUIInputRadioUsingTextByLabelExact => "new ExtUIGetter(driver).getInputFromLabel({arg1}).shouldBe().radio().selectElementFromText({arg2})"@,
        BuiltinPkgFunctions::ExtUIInputRadioUsingIndexByLabelExact => "new ExtUIGetter(driver).getInputFromLabel({arg1}).shouldBe().radio().selectElementOnIndex({arg2})"@,
        BuiltinPkgFunctions::GetAndSwitchToAnyIFrame => "driver = driverExt.waitUntilFrameLoads(By.xpath('//iframe')); driverExt = new WebDriverExtended(driver)"@,
        BuiltinPkgFunctions::GetAndSwitchToParentIFrame => "driver = driver.switchTo().parentFrame(); driverExt = new WebDriverExtended(driver)"@,
        BuiltinPkgFunctions::GetAndSwitchToRootIFrame => "driver = driver.switchTo().defaultContent(); driverExt = new WebDriverExtended(driver)"@,
        BuiltinPkgFunctions::SetWindowDimension => "driverExt.setWindowDimension({arg1}, {arg2})"@,
        BuiltinPkgFunctions::MUIInputTextboxByLabelExact => "new ReactMUIGetter(driver).getTextboxFromLabel({arg1}).sendText({arg2})"@,
        BuiltinPkgFunctions::MUIInputDateByLabelExact => "new ReactMUIGetter(driver).getDateFromLabel({arg1}).sendText({arg2})"@,
        BuiltinPkgFunctions::MUIInputTimeByLabelExact => "new ReactMUIGetter(driver).getTimeFromLabel({arg1}).sendText({arg2})"@,
        BuiltinPkgFunctions::MUIInputHtmlByLabelExact => "new ReactMUIGetter(driver).getHTMLFromLabel({arg1}).clearText().sendRawText({arg2})"@,
        BuiltinPkgFunctions::MUIInputDropdownUsingTextByLabelExact => "new ReactMUIGetter(driver).getDropdownFromLabel({arg1}).selectElementFromText({arg2})"@,
        BuiltinPkgFunctions::MUIInputDropdownUsingIndexByLabelExact => "new ReactMUIGetter(driver).getDropdownFromLabel({arg1}).selectElementOnIndex({arg2})"@,
        BuiltinPkgFunctions::MUIInputRadioUsingTextByLabelExact => "new ReactMUIGetter(driver).getRadioFromLabel({arg1}).selectElementFromText({arg2})"@,
        BuiltinPkgFunctions::MUIInputRadioUsingIndexByLabelExact => "new ReactMUIGetter(driver).getRadioFromLabel({arg1}).selectElementOnIndex({arg2})"@,
    }
}

/// The Groovy template of a built-in function.
fn get_katalon_default_fn_metadata(builtin_fn: BuiltinPkgFunctions) -> (r: &'static str)
    ensures
        r@ == katalon_template(builtin_fn),
{
    match builtin_fn {
        BuiltinPkgFunctions::NavigateToUrl => "driver.navigate().to({arg1})",
        BuiltinPkgFunctions::GetElementByString => "driverExt.getElement().byString({arg1}, {arg2}, {arg3}, {arg4}).untilElementInteractable()",
        BuiltinPkgFunctions::ClickElementByString => "driverExt.getElement().byString({arg1}, {arg2}, {arg3}, {arg4}).untilElementInteractable().click()",
        BuiltinPkgFunctions::SendTextToElementByString => "driverExt.getElement().byString({arg1}, {arg3}, {arg4}, {arg5}).untilElementInteractable().sendKeys({arg2})",
        BuiltinPkgFunctions::ExtUIGetInputFromLabel => "new ExtUIGetter(driver).getInputFromLabel({arg1})",
        BuiltinPkgFunctions::ExtUIGetIFrameFromLabel => "new ExtUIGetter(driver).getIFrameFromLabel({arg1})",
        BuiltinPkgFunctions::ExtUIGetWindowFromLabel => "new ExtUIGetter(driver).getWindowFromTitle({arg1})",
        BuiltinPkgFunctions::ExtUIGetGroupFromLabel => "new ExtUIGetter(driver).getGroupFromTitle({arg1})",
        BuiltinPkgFunctions::ExtUIInputDateByLabelExact => "new ExtUIGetter(driver).getInputFromLabel({arg1}).shouldBe().date().sendText({arg2}, false)",
        BuiltinPkgFunctions::ExtUIInputHtmlByLabelExact => "new ExtUIGetter(driver).getIFrameFromLabel({arg1}).shouldBe().htmlEditor().sendText({arg2})",
        BuiltinPkgFunctions::ExtUIInputNumberTextboxByLabelExact => "new ExtUIGetter(driver).getInputFromLabel({arg1}).shouldBe().numberTextbox().sendText({arg2})",
        BuiltinPkgFunctions::ExtUIInputTextboxByLabelExact => "new ExtUIGetter(driver).getInputFromLabel({arg1}).shouldBe().textbox().sendText({arg2})",
        BuiltinPkgFunctions::ExtUIInputDropdownUsingTextByLabelExact => "new ExtUIGetter(driver).getInputFromLabel({arg1}).shouldBe().dropdown().selectElementFromText({arg2})",
        BuiltinPkgFunctions::ExtUIInputDropdownUsingIndexByLabelExact => "new ExtUIGetter(driver).getInputFromLabel({arg1}).shouldBe().dropdown().selectElementOnIndex({arg2})",
        BuiltinPkgFunctions::ExtUIInputRadioUsingTextByLabelExact => "new ExtUIGetter(driver).getInputFromLabel({arg1}).shouldBe().radio().selectElementFromText({arg2})",
        BuiltinPkgFunctions::ExtUIInputRadioUsingIndexByLabelExact => "new ExtUIGetter(driver).getInputFromLabel({arg1}).shouldBe().radio().selectElementOnIndex({arg2})",
        BuiltinPkgFunctions::GetAndSwitchToAnyIFrame => "driver = driverExt.waitUntilFrameLoads(By.xpath('//iframe')); driverExt = new WebDriverExtended(driver)",
        BuiltinPkgFunctions::GetAndSwitchToParentIFrame => "driver = driver.switchTo().parentFrame(); driverExt = new WebDriverExtended(driver)",
        BuiltinPkgFunctions::GetAndSwitchToRootIFrame => "driver = driver.switchTo().defaultContent(); driverExt = new WebDriverExtended(driver)",
        BuiltinPkgFunctions::SetWindowDimension => "driverExt.setWindowDimension({arg1}, {arg2})",
        BuiltinPkgFunctions::MUIInputTextboxByLabelExact => "new ReactMUIGetter(driver).getTextboxFromLabel({arg1}).sendText({arg2})",
        BuiltinPkgFunctions::MUIInputDateByLabelExact => "new ReactMUIGetter(driver).getDateFromLabel({arg1}).sendText({arg2})",
        BuiltinPkgFunctions::MUIInputTimeByLabelExact => "new ReactMUIGetter(driver).getTimeFromLabel({arg1}).sendText({arg2})",
        BuiltinPkgFunctions::MUIInputHtmlByLabelExact => "new ReactMUIGetter(driver).getHTMLFromLabel({arg1}).clearText().sendRawText({arg2})",
        BuiltinPkgFunctions::MUIInputDropdownUsingTextByLabelExact => "new ReactMUIGetter(driver).getDropdownFromLabel({arg1}).selectElementFromText({arg2})",
        BuiltinPkgFunctions::MUIInputDropdownUsingIndexByLabelExact => "new ReactMUIGetter(driver).getDropdownFromLabel({arg1}).selectElementOnIndex({arg2})",
        BuiltinPkgFunctions::MUIInputRadioUsingTextByLabelExact => "new ReactMUIGetter(driver).getRadioFromLabel({arg1}).selectElementFromText({arg2})",
        BuiltinPkgFunctions::MUIInputRadioUsingIndexByLabelExact => "new ReactMUIGetter(driver).getRadioFromLabel({arg1}).selectElementOnIndex({arg2})",
    }
}

/// The Groovy template of the built-in function `pkg:name`.
pub fn get_default_fn_template(name: &String, pkg: &String) -> (r: Result<&'static str, CheckError>)
    ensures
        !is_builtin_package(pkg@) ==> r == Err::<&'static str, CheckError>(CheckError::UnsupportedPackage(*pkg)),
        is_builtin_package(pkg@) ==> match lookup_builtin(name@) {
            None => r == Err::<&'static str, CheckError>(CheckError::UnknownFunction(*name, *pkg)),
            Some(f) => r is Ok && r->Ok_0@ == katalon_template(f),
        },
{
    if !(str_eq(pkg.as_str(), "#") || str_eq(pkg.as_str(), "builtin")) {
        return Err(CheckError::UnsupportedPackage(pkg.clone()));
    }
    match BuiltinPkgFunctions::from_name(name.as_str()) {
        Some(f) => Ok(get_katalon_default_fn_metadata(f)),
        None => Err(CheckError::UnknownFunction(name.clone(), pkg.clone())),
    }
}

} // verus!
